//! The `extends` chain of a configuration file.
//!
//! A configuration file may name other files, or packages that export one,
//! on which it builds. Finding and reading those files is the caller's part.
//! What is decided here is which kind of entry stands for a path and which
//! for a package, the order of the walk, when it fails, and in which order
//! the fragments come out: the walk is depth-first, and the fragments of
//! the files that a file extends come out before the file's own.
//!
//! The resolver never calls out. It hands the caller one [`Action`] at a
//! time; for [`Action::Load`] the caller resolves the entry and reads the
//! file, and hands what it found to [`ExtendsResolver::resume`].

use crate::diagnostics::{CantLoadExtendFile, CantLoadExtendFileView};
use crate::document::{SchemaError, SchemaErrorView, Value};
use crate::matcher::chars_of;
use crate::merge::{option_view, or_default};
use crate::schema::{document_of, from_document};
use crate::string_set::{string_set_to_vec, views};
use crate::{
    fragment_views, ConfigurationPayload, ConfigurationPayloadView, PartialConfiguration,
    PartialConfigurationView,
};
use vstd::prelude::*;

verus! {

/// What the caller found for one `extends` entry.
#[derive(Debug, PartialEq, Eq)]
pub enum Resolution {
    /// The file the entry stands for. Its path is the canonical path of the
    /// file; its resolution base is the place from which the file's own
    /// `extends` entries are to be resolved.
    Found(ConfigurationPayload),
    /// The entry stands for no file.
    NotFound { searched: Vec<String> },
    /// The entry stands for the file at `path`, which cannot be read.
    Unreadable { path: String },
    /// The entry stands for the file at `path`, whose text is no well-formed
    /// document.
    Malformed { path: String },
    /// The entry stands for the file at `path`, whose document is no
    /// configuration.
    Invalid { path: String, error: SchemaError },
}

/// What a [`Resolution`] value stands for.
#[verifier::ext_equal]
pub enum ResolutionView {
    Found(ConfigurationPayloadView),
    NotFound { searched: Seq<Seq<char>> },
    Unreadable { path: Seq<char> },
    Malformed { path: Seq<char> },
    Invalid { path: Seq<char>, error: SchemaErrorView },
}

impl View for Resolution {
    type V = ResolutionView;

    open spec fn view(&self) -> ResolutionView {
        match *self {
            Resolution::Found(payload) => ResolutionView::Found(payload@),
            Resolution::NotFound { searched } => ResolutionView::NotFound {
                searched: views(searched@),
            },
            Resolution::Unreadable { path } => ResolutionView::Unreadable { path: path@ },
            Resolution::Malformed { path } => ResolutionView::Malformed { path: path@ },
            Resolution::Invalid { path, error } => ResolutionView::Invalid {
                path: path@,
                error: error@,
            },
        }
    }
}

/// Why the chain cannot be resolved.
#[derive(Debug, PartialEq, Eq)]
pub enum ExtendsError {
    /// An entry stands for no file.
    CantLoad(CantLoadExtendFile),
    /// A file extends itself, directly or through others. The chain starts at
    /// the file whose chain is resolved; its last path is the one that occurs
    /// in it for the second time.
    Cycle { chain: Vec<String> },
    /// The file at `path`, which an entry stands for, cannot be read.
    Unreadable { path: String },
    /// The text of the file at `path`, which an entry stands for, is no
    /// well-formed document.
    Malformed { path: String },
    /// The document of the file at `path`, which an entry stands for, is no
    /// configuration.
    Invalid { path: String, error: SchemaError },
}

/// What an [`ExtendsError`] value stands for.
#[verifier::ext_equal]
pub enum ExtendsErrorView {
    CantLoad(CantLoadExtendFileView),
    Cycle { chain: Seq<Seq<char>> },
    Unreadable { path: Seq<char> },
    Malformed { path: Seq<char> },
    Invalid { path: Seq<char>, error: SchemaErrorView },
}

impl View for ExtendsError {
    type V = ExtendsErrorView;

    open spec fn view(&self) -> ExtendsErrorView {
        match *self {
            ExtendsError::CantLoad(e) => ExtendsErrorView::CantLoad(e@),
            ExtendsError::Cycle { chain } => ExtendsErrorView::Cycle { chain: views(chain@) },
            ExtendsError::Unreadable { path } => ExtendsErrorView::Unreadable { path: path@ },
            ExtendsError::Malformed { path } => ExtendsErrorView::Malformed { path: path@ },
            ExtendsError::Invalid { path, error } => ExtendsErrorView::Invalid {
                path: path@,
                error: error@,
            },
        }
    }
}

/// What an `extends` entry stands for.
#[derive(Clone, Copy, Debug, PartialEq, Eq)]
pub enum EntryKind {
    /// A file: a path relative to the place from which the entry is
    /// resolved, or an absolute path.
    Path,
    /// A configuration that a package exports: the name of the package and
    /// of the export, to be found through the package's export map.
    Package,
}

/// The kind of an entry: one that begins with `.` or with `/` is a path,
/// every other a package reference.
pub open spec fn kind_of_entry(entry: Seq<char>) -> EntryKind {
    if entry.len() > 0 && (entry[0] == '.' || entry[0] == '/') {
        EntryKind::Path
    } else {
        EntryKind::Package
    }
}

/// Executable form of [`kind_of_entry`].
pub fn entry_kind(entry: &str) -> (r: EntryKind)
    ensures
        r == kind_of_entry(entry@),
{
    let text = chars_of(entry);
    if text.len() > 0 && (text[0] == '.' || text[0] == '/') {
        EntryKind::Path
    } else {
        EntryKind::Package
    }
}

/// What the document of the file at `path`, which an entry stands for, comes
/// to.
pub open spec fn resolution_of(
    path: Seq<char>,
    resolution_base: Seq<char>,
    document: Value,
) -> ResolutionView {
    match document_of(document) {
        Ok(fragment) => ResolutionView::Found(
            ConfigurationPayloadView {
                deserialized: fragment,
                configuration_file_path: path,
                external_resolution_base_path: resolution_base,
            },
        ),
        Err(error) => ResolutionView::Invalid { path, error },
    }
}

/// Reads the document of the file that an entry stands for: the file is
/// found with the fragment that the document holds, or it is invalid for what
/// is amiss in the document.
pub fn resolve_document(path: String, resolution_base: String, document: &Value) -> (r: Resolution)
    ensures
        r@ == resolution_of(path@, resolution_base@, *document),
{
    match from_document(document) {
        Ok(deserialized) => Resolution::Found(
            ConfigurationPayload {
                deserialized,
                configuration_file_path: path,
                external_resolution_base_path: resolution_base,
            },
        ),
        Err(error) => Resolution::Invalid { path, error },
    }
}

/// What the caller is to do next.
#[derive(Debug, PartialEq, Eq)]
pub enum Action {
    /// Resolve the entry `specifier` from `base_path`, read the file it
    /// stands for, and hand the outcome to [`ExtendsResolver::resume`].
    Load { specifier: String, base_path: String },
    /// The chain is resolved: these are its fragments, lowest precedence
    /// first.
    Done { fragments: Vec<PartialConfiguration> },
    /// The chain cannot be resolved, and with it the whole load fails.
    Fail(ExtendsError),
}

/// What an [`Action`] value stands for.
#[verifier::ext_equal]
pub enum ActionView {
    Load { specifier: Seq<char>, base_path: Seq<char> },
    Done { fragments: Seq<PartialConfigurationView> },
    Fail(ExtendsErrorView),
}

impl View for Action {
    type V = ActionView;

    open spec fn view(&self) -> ActionView {
        match *self {
            Action::Load { specifier, base_path } => ActionView::Load {
                specifier: specifier@,
                base_path: base_path@,
            },
            Action::Done { fragments } => ActionView::Done {
                fragments: fragment_views(fragments@),
            },
            Action::Fail(e) => ActionView::Fail(e@),
        }
    }
}

/// A file whose `extends` entries are being resolved.
#[verifier::ext_equal]
pub struct FrameView {
    /// The canonical path of the file.
    pub path: Seq<char>,
    /// The path from which the file's entries are resolved.
    pub base: Seq<char>,
    /// The entries that are still to be resolved, in the order of the file.
    pub pending: Seq<Seq<char>>,
    /// The file's own fragment. The file whose chain is resolved has none: it
    /// is no part of its own chain.
    pub fragment: Option<PartialConfigurationView>,
}

/// The state of a walk.
#[verifier::ext_equal]
pub struct ResolverView {
    /// The files between the first file and the one at hand, each one named
    /// by an entry of the one before it.
    pub stack: Seq<FrameView>,
    /// The fragments that have come out so far.
    pub fragments: Seq<PartialConfigurationView>,
}

impl ResolverView {
    /// The state before the walk: the file `root`, with its entries to resolve.
    pub open spec fn initial(root: ConfigurationPayloadView) -> Self {
        ResolverView {
            stack: seq![
                FrameView {
                    path: root.configuration_file_path,
                    base: root.external_resolution_base_path,
                    pending: or_default(root.deserialized.extends, Seq::empty()),
                    fragment: None,
                },
            ],
            fragments: Seq::empty(),
        }
    }

    /// The state after the walk, and after a failure.
    pub open spec fn finished() -> Self {
        ResolverView { stack: Seq::empty(), fragments: Seq::empty() }
    }

    /// The paths of the files on the stack, the first file first.
    pub open spec fn chain(self) -> Seq<Seq<char>> {
        self.stack.map_values(|f: FrameView| f.path)
    }

    /// Whether an entry of the file at hand is still to be resolved.
    pub open spec fn awaiting(self) -> bool {
        self.stack.len() > 0 && self.stack.last().pending.len() > 0
    }

    /// The state once every file whose entries are all resolved has left the
    /// stack, its own fragment behind those of the files it extends.
    pub open spec fn settled(self) -> Self
        decreases self.stack.len(),
    {
        if self.stack.len() > 0 && self.stack.last().pending.len() == 0 {
            ResolverView {
                stack: self.stack.drop_last(),
                fragments: match self.stack.last().fragment {
                    Some(f) => self.fragments.push(f),
                    None => self.fragments,
                },
            }.settled()
        } else {
            self
        }
    }

    /// How the walk goes on from this state: with the next entry of the file
    /// at hand, or, when no file is left, with the end of the walk.
    pub open spec fn proceeded(self) -> (Self, ActionView) {
        let s = self.settled();
        if s.stack.len() == 0 {
            (Self::finished(), ActionView::Done { fragments: s.fragments })
        } else {
            (
                s,
                ActionView::Load {
                    specifier: s.stack.last().pending[0],
                    base_path: s.stack.last().base,
                },
            )
        }
    }

    /// The stack with the first pending entry of the file at hand taken off.
    pub open spec fn answered(self) -> Seq<FrameView> {
        let top = self.stack.last();
        self.stack.drop_last().push(FrameView { pending: top.pending.skip(1), ..top })
    }

    /// How the walk goes on once the caller has found `resolution` for the
    /// first pending entry of the file at hand. An entry that stands for no
    /// file fails the walk, and so does one that stands for a file of the
    /// chain, and one whose file cannot be read or holds no configuration. Any
    /// other file goes on the stack, to have its own entries resolved first.
    pub open spec fn resumed(self, resolution: ResolutionView) -> (Self, ActionView) {
        if !self.awaiting() {
            self.proceeded()
        } else {
            let top = self.stack.last();
            match resolution {
                ResolutionView::NotFound { searched } => (
                    Self::finished(),
                    ActionView::Fail(
                        ExtendsErrorView::CantLoad(
                            CantLoadExtendFileView {
                                specifier: top.pending[0],
                                base_path: top.base,
                                searched,
                            },
                        ),
                    ),
                ),
                ResolutionView::Unreadable { path } => (
                    Self::finished(),
                    ActionView::Fail(ExtendsErrorView::Unreadable { path }),
                ),
                ResolutionView::Malformed { path } => (
                    Self::finished(),
                    ActionView::Fail(ExtendsErrorView::Malformed { path }),
                ),
                ResolutionView::Invalid { path, error } => (
                    Self::finished(),
                    ActionView::Fail(ExtendsErrorView::Invalid { path, error }),
                ),
                ResolutionView::Found(payload) => if self.chain().contains(
                    payload.configuration_file_path,
                ) {
                    (
                        Self::finished(),
                        ActionView::Fail(
                            ExtendsErrorView::Cycle {
                                chain: self.chain().push(payload.configuration_file_path),
                            },
                        ),
                    )
                } else {
                    ResolverView {
                        stack: self.answered().push(
                            FrameView {
                                path: payload.configuration_file_path,
                                base: payload.external_resolution_base_path,
                                pending: or_default(payload.deserialized.extends, Seq::empty()),
                                fragment: Some(payload.deserialized),
                            },
                        ),
                        fragments: self.fragments,
                    }.proceeded()
                },
            }
        }
    }
}

/// A file on the stack. Its pending entries are held last entry first, so
/// that the next one is taken off the end.
struct Frame {
    path: String,
    base: String,
    pending: Vec<String>,
    fragment: Option<PartialConfiguration>,
}

impl View for Frame {
    type V = FrameView;

    closed spec fn view(&self) -> FrameView {
        FrameView {
            path: self.path@,
            base: self.base@,
            pending: views(self.pending@).reverse(),
            fragment: option_view(self.fragment),
        }
    }
}

/// The views of the frames of a stack.
spec fn frame_views(frames: Seq<Frame>) -> Seq<FrameView> {
    frames.map_values(|f: Frame| f@)
}

/// The strings in reverse order.
fn reversed(strings: Vec<String>) -> (r: Vec<String>)
    ensures
        views(r@).reverse() == views(strings@),
{
    let mut strings = strings;
    let ghost all = strings@;
    let mut r: Vec<String> = Vec::new();
    while strings.len() > 0
        invariant
            strings@.len() + r@.len() == all.len(),
            strings@ == all.subrange(0, strings@.len() as int),
            forall|i: int| 0 <= i < r@.len() ==> #[trigger] r@[i] == all[all.len() - 1 - i],
        decreases strings@.len(),
    {
        let s = strings.pop().unwrap();
        r.push(s);
    }
    assert(views(r@).reverse() =~= views(all));
    r
}

/// Walks the `extends` chain of one configuration file.
pub struct ExtendsResolver {
    stack: Vec<Frame>,
    fragments: Vec<PartialConfiguration>,
}

impl View for ExtendsResolver {
    type V = ResolverView;

    closed spec fn view(&self) -> ResolverView {
        ResolverView { stack: frame_views(self.stack@), fragments: fragment_views(self.fragments@) }
    }
}

impl ExtendsResolver {
    /// The resolver for the chain of the file `root`, before the walk.
    pub fn new(root: &ConfigurationPayload) -> (r: Self)
        ensures
            r@ == ResolverView::initial(root@),
    {
        let pending = match &root.deserialized.extends {
            Some(set) => reversed(string_set_to_vec(set)),
            None => Vec::new(),
        };
        assert(views(pending@).reverse() =~= or_default(root@.deserialized.extends, Seq::empty()));
        let frame = Frame {
            path: root.configuration_file_path.clone(),
            base: root.external_resolution_base_path.clone(),
            pending,
            fragment: None,
        };
        let mut stack: Vec<Frame> = Vec::new();
        stack.push(frame);
        let r = ExtendsResolver { stack, fragments: Vec::new() };
        assert(r@.stack =~= ResolverView::initial(root@).stack);
        assert(r@.fragments =~= ResolverView::initial(root@).fragments);
        r
    }

    /// Whether the resolver waits for the outcome of an [`Action::Load`].
    pub fn is_awaiting(&self) -> (r: bool)
        ensures
            r == self@.awaiting(),
    {
        let n = self.stack.len();
        n > 0 && self.stack[n - 1].pending.len() > 0
    }

    /// Forgets the walk.
    fn finish(&mut self)
        ensures
            final(self)@ == ResolverView::finished(),
    {
        self.stack = Vec::new();
        self.fragments = Vec::new();
        assert(self@.stack =~= ResolverView::finished().stack);
        assert(self@.fragments =~= ResolverView::finished().fragments);
    }

    /// Says how the walk goes on: the first action of a walk, and the action
    /// after [`Action::Load`] where the caller has nothing to hand in.
    pub fn proceed(&mut self) -> (action: Action)
        ensures
            final(self)@ == old(self)@.proceeded().0,
            action@ == old(self)@.proceeded().1,
    {
        let ghost start = self@;
        while self.stack.len() > 0 && self.stack[self.stack.len() - 1].pending.len() == 0
            invariant
                self@.settled() == start.settled(),
            decreases self.stack@.len(),
        {
            let ghost before = self@;
            let frame = self.stack.pop().unwrap();
            assert(before.stack.last() == frame@);
            assert(frame_views(self.stack@) =~= before.stack.drop_last());
            if let Some(fragment) = frame.fragment {
                self.fragments.push(fragment);
                assert(fragment_views(self.fragments@) =~= before.fragments.push(fragment@));
            }
        }
        let n = self.stack.len();
        if n == 0 {
            let mut fragments: Vec<PartialConfiguration> = Vec::new();
            core::mem::swap(&mut fragments, &mut self.fragments);
            self.finish();
            Action::Done { fragments }
        } else {
            let top = &self.stack[n - 1];
            let specifier = top.pending[top.pending.len() - 1].clone();
            let base_path = top.base.clone();
            assert(self@.stack.last() == top@);
            assert(top@.pending[0] == specifier@);
            Action::Load { specifier, base_path }
        }
    }

    /// Whether `path` is the path of a file on the stack.
    fn on_chain(&self, path: &String) -> (r: bool)
        ensures
            r == self@.chain().contains(path@),
    {
        let mut i: usize = 0;
        while i < self.stack.len()
            invariant
                i <= self.stack@.len(),
                forall|j: int| 0 <= j < i ==> self@.chain()[j] != path@,
            decreases self.stack@.len() - i,
        {
            if self.stack[i].path == *path {
                assert(self@.chain()[i as int] == path@);
                return true;
            }
            i += 1;
        }
        false
    }

    /// The paths of the files on the stack, and `path` behind them.
    fn chain_with(&self, path: String) -> (r: Vec<String>)
        ensures
            views(r@) == self@.chain().push(path@),
    {
        let mut chain: Vec<String> = Vec::new();
        let mut i: usize = 0;
        while i < self.stack.len()
            invariant
                i <= self.stack@.len(),
                views(chain@) == self@.chain().subrange(0, i as int),
            decreases self.stack@.len() - i,
        {
            let ghost before = chain@;
            let step = self.stack[i].path.clone();
            chain.push(step);
            assert(views(chain@) =~= views(before).push(step@));
            assert(self@.chain()[i as int] == step@);
            assert(self@.chain().subrange(0, i + 1) =~= self@.chain().subrange(0, i as int).push(
                step@,
            ));
            i += 1;
        }
        let ghost before = chain@;
        assert(self@.chain().subrange(0, i as int) =~= self@.chain());
        chain.push(path);
        assert(views(chain@) =~= views(before).push(path@));
        chain
    }

    /// Takes in what the caller found for the entry of the last
    /// [`Action::Load`], and says how the walk goes on. Where the resolver
    /// waits for no outcome, `resolution` is dropped.
    pub fn resume(&mut self, resolution: Resolution) -> (action: Action)
        ensures
            final(self)@ == old(self)@.resumed(resolution@).0,
            action@ == old(self)@.resumed(resolution@).1,
    {
        if !self.is_awaiting() {
            return self.proceed();
        }
        let ghost start = self@;
        match resolution {
            Resolution::NotFound { searched } => {
                let mut top = self.stack.pop().unwrap();
                assert(start.stack.last() == top@);
                let specifier = top.pending.pop().unwrap();
                assert(specifier@ == start.stack.last().pending[0]);
                self.finish();
                Action::Fail(
                    ExtendsError::CantLoad(
                        CantLoadExtendFile { specifier, base_path: top.base, searched },
                    ),
                )
            },
            Resolution::Unreadable { path } => {
                self.finish();
                Action::Fail(ExtendsError::Unreadable { path })
            },
            Resolution::Malformed { path } => {
                self.finish();
                Action::Fail(ExtendsError::Malformed { path })
            },
            Resolution::Invalid { path, error } => {
                self.finish();
                Action::Fail(ExtendsError::Invalid { path, error })
            },
            Resolution::Found(payload) => {
                if self.on_chain(&payload.configuration_file_path) {
                    let chain = self.chain_with(payload.configuration_file_path);
                    self.finish();
                    Action::Fail(ExtendsError::Cycle { chain })
                } else {
                    let mut top = self.stack.pop().unwrap();
                    assert(start.stack.last() == top@);
                    assert(frame_views(self.stack@) =~= start.stack.drop_last());
                    let ghost held = top.pending@;
                    top.pending.pop();
                    assert(views(top.pending@).reverse() =~= views(held).reverse().skip(1));
                    self.stack.push(top);
                    let pending = match &payload.deserialized.extends {
                        Some(set) => reversed(string_set_to_vec(set)),
                        None => Vec::new(),
                    };
                    assert(views(pending@).reverse() =~= or_default(
                        payload@.deserialized.extends,
                        Seq::empty(),
                    ));
                    let frame = Frame {
                        path: payload.configuration_file_path,
                        base: payload.external_resolution_base_path,
                        pending,
                        fragment: Some(payload.deserialized),
                    };
                    self.stack.push(frame);
                    assert(self@.stack =~= start.answered().push(
                        FrameView {
                            path: payload@.configuration_file_path,
                            base: payload@.external_resolution_base_path,
                            pending: or_default(payload@.deserialized.extends, Seq::empty()),
                            fragment: Some(payload@.deserialized),
                        },
                    ));
                    self.proceed()
                }
            },
        }
    }
}

} // verus!
