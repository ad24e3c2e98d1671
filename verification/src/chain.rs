//! What the walk of an `extends` chain amounts to.
//!
//! The resolver of [`crate::extends`] walks the chain one action at a time.
//! Here the chain is defined in one piece, by recursion over the files, and
//! the walk is shown to arrive at it: at the same fragments in the same
//! order, or at the same failure.

use crate::diagnostics::CantLoadExtendFileView;
use crate::extends::{ActionView, ExtendsErrorView, FrameView, ResolutionView, ResolverView};
use crate::merge::or_default;
use crate::{ConfigurationPayloadView, PartialConfigurationView};
use vstd::prelude::*;

verus! {

/// What the caller finds for an `extends` entry: the outcome for each entry
/// and each path from which it is resolved.
pub type Lookups = spec_fn(Seq<char>, Seq<char>) -> ResolutionView;

/// The fragments of the chain, or why there are none; nothing where the
/// chain is deeper than `depth`.
pub type Chain = Option<Result<Seq<PartialConfigurationView>, ExtendsErrorView>>;

/// The chain of the entries `entries`, resolved from `base`, of a file whose
/// ancestors are `ancestors`, itself the last of them. The entries are taken
/// in their order. For each, the chain of the file it stands for comes first
/// and the file's own fragment behind it. The first entry that stands for no
/// file, for a file that cannot be read or holds no configuration, or for one
/// of the ancestors of the file that names it, ends the chain with a failure.
pub open spec fn chain_of(
    lookups: Lookups,
    entries: Seq<Seq<char>>,
    base: Seq<char>,
    ancestors: Seq<Seq<char>>,
    depth: nat,
) -> Chain
    decreases depth, entries.len(),
{
    if entries.len() == 0 {
        Some(Ok(Seq::empty()))
    } else {
        match lookups(entries[0], base) {
            ResolutionView::NotFound { searched } => Some(
                Err(
                    ExtendsErrorView::CantLoad(
                        CantLoadExtendFileView { specifier: entries[0], base_path: base, searched },
                    ),
                ),
            ),
            ResolutionView::Unreadable { path } => Some(
                Err(ExtendsErrorView::Unreadable { path }),
            ),
            ResolutionView::Malformed { path } => Some(Err(ExtendsErrorView::Malformed { path })),
            ResolutionView::Invalid { path, error } => Some(
                Err(ExtendsErrorView::Invalid { path, error }),
            ),
            ResolutionView::Found(file) => if ancestors.contains(file.configuration_file_path) {
                Some(
                    Err(
                        ExtendsErrorView::Cycle {
                            chain: ancestors.push(file.configuration_file_path),
                        },
                    ),
                )
            } else if depth == 0 {
                None
            } else {
                match chain_of(
                    lookups,
                    or_default(file.deserialized.extends, Seq::empty()),
                    file.external_resolution_base_path,
                    ancestors.push(file.configuration_file_path),
                    (depth - 1) as nat,
                ) {
                    Some(Ok(extended)) => match chain_of(
                        lookups,
                        entries.skip(1),
                        base,
                        ancestors,
                        depth,
                    ) {
                        Some(Ok(rest)) => Some(Ok(extended.push(file.deserialized) + rest)),
                        other => other,
                    },
                    other => other,
                }
            },
        }
    }
}

/// The chain of the file `root`.
pub open spec fn chain_of_file(
    lookups: Lookups,
    root: ConfigurationPayloadView,
    depth: nat,
) -> Chain {
    chain_of(
        lookups,
        or_default(root.deserialized.extends, Seq::empty()),
        root.external_resolution_base_path,
        seq![root.configuration_file_path],
        depth,
    )
}

/// The walk after `steps` more steps: at each step the caller finds for the
/// entry of the pending [`ActionView::Load`] what `lookups` says, and hands it
/// in. A walk that has ended stays as it is.
pub open spec fn walked(lookups: Lookups, walk: (ResolverView, ActionView), steps: nat) -> (
    ResolverView,
    ActionView,
)
    decreases steps,
{
    if steps == 0 {
        walk
    } else {
        match walk.1 {
            ActionView::Load { specifier, base_path } => walked(
                lookups,
                walk.0.resumed(lookups(specifier, base_path)),
                (steps - 1) as nat,
            ),
            _ => walk,
        }
    }
}

/// Walking `a` steps and then `b` steps is walking `a + b` steps.
pub proof fn lemma_walk_composes(
    lookups: Lookups,
    walk: (ResolverView, ActionView),
    a: nat,
    b: nat,
)
    ensures
        walked(lookups, walked(lookups, walk, a), b) == walked(lookups, walk, a + b),
    decreases a,
{
    if a > 0 {
        match walk.1 {
            ActionView::Load { specifier, base_path } => {
                lemma_walk_composes(
                    lookups,
                    walk.0.resumed(lookups(specifier, base_path)),
                    (a - 1) as nat,
                    b,
                );
            },
            _ => {
                lemma_walk_ended(lookups, walk, b);
            },
        }
    }
}

/// A walk that has ended stays as it is.
pub proof fn lemma_walk_ended(lookups: Lookups, walk: (ResolverView, ActionView), steps: nat)
    requires
        !(walk.1 is Load),
    ensures
        walked(lookups, walk, steps) == walk,
{
}

/// The state in which every entry of the file at hand is resolved and
/// `fragments` have come out on the way.
pub open spec fn resolved_top(
    state: ResolverView,
    fragments: Seq<PartialConfigurationView>,
) -> ResolverView {
    ResolverView {
        stack: state.stack.drop_last().push(
            FrameView { pending: Seq::empty(), ..state.stack.last() },
        ),
        fragments: state.fragments + fragments,
    }
}

/// From any state, the walk resolves the pending entries of the file at hand
/// as [`chain_of`] says: it arrives where these entries are all resolved and
/// the fragments of their chain have come out, or it fails as the chain does.
/// It takes `steps` steps to get there.
pub proof fn lemma_walk_resolves_top(lookups: Lookups, state: ResolverView, depth: nat) -> (steps:
    nat)
    requires
        state.stack.len() > 0,
        chain_of(
            lookups,
            state.stack.last().pending,
            state.stack.last().base,
            state.chain(),
            depth,
        ) is Some,
    ensures
        match chain_of(
            lookups,
            state.stack.last().pending,
            state.stack.last().base,
            state.chain(),
            depth,
        )->0 {
            Ok(fragments) => walked(lookups, state.proceeded(), steps) == resolved_top(
                state,
                fragments,
            ).proceeded(),
            Err(e) => walked(lookups, state.proceeded(), steps) == (
                ResolverView::finished(),
                ActionView::Fail(e),
            ),
        },
    decreases depth, state.stack.last().pending.len(),
{
    let top = state.stack.last();
    let entries = top.pending;
    if entries.len() == 0 {
        assert(resolved_top(state, Seq::empty()) =~~= state);
        0
    } else {
        assert(state.awaiting());
        assert(state.settled() == state);
        let found = lookups(entries[0], top.base);
        let next = state.resumed(found);
        assert(walked(lookups, state.proceeded(), 1) == next) by {
            assert(walked(lookups, next, 0) == next);
        }
        match found {
            ResolutionView::NotFound { .. } => 1,
            ResolutionView::Unreadable { .. } => 1,
            ResolutionView::Malformed { .. } => 1,
            ResolutionView::Invalid { .. } => 1,
            ResolutionView::Found(file) => {
                if state.chain().contains(file.configuration_file_path) {
                    1
                } else {
                    let frame = FrameView {
                        path: file.configuration_file_path,
                        base: file.external_resolution_base_path,
                        pending: or_default(file.deserialized.extends, Seq::empty()),
                        fragment: Some(file.deserialized),
                    };
                    let inner = ResolverView {
                        stack: state.answered().push(frame),
                        fragments: state.fragments,
                    };
                    assert(next == inner.proceeded());
                    assert(inner.chain() =~= state.chain().push(file.configuration_file_path));
                    assert(inner.stack.last() == frame);
                    let n1 = lemma_walk_resolves_top(lookups, inner, (depth - 1) as nat);
                    let extended = chain_of(
                        lookups,
                        frame.pending,
                        frame.base,
                        inner.chain(),
                        (depth - 1) as nat,
                    )->0;
                    match extended {
                        Err(e) => {
                            lemma_walk_composes(lookups, state.proceeded(), 1, n1);
                            1 + n1
                        },
                        Ok(extended) => {
                            // The file extended has left the stack, its own
                            // fragment behind those of its chain.
                            let back = ResolverView {
                                stack: state.answered(),
                                fragments: state.fragments + extended.push(file.deserialized),
                            };
                            let inner_done = resolved_top(inner, extended);
                            assert(inner_done.stack.drop_last() =~= state.answered());
                            assert(inner_done.fragments.push(file.deserialized) =~= back.fragments);
                            assert(inner_done.settled() == back.settled());
                            assert(inner_done.proceeded() == back.proceeded());
                            assert(back.chain() =~= state.chain());
                            assert(back.stack.last().pending == entries.skip(1));
                            let n2 = lemma_walk_resolves_top(lookups, back, depth);
                            lemma_walk_composes(lookups, state.proceeded(), 1, n1);
                            lemma_walk_composes(lookups, state.proceeded(), 1 + n1, n2);
                            let rest = chain_of(
                                lookups,
                                entries.skip(1),
                                top.base,
                                state.chain(),
                                depth,
                            )->0;
                            match rest {
                                Err(e) => {},
                                Ok(rest) => {
                                    assert(resolved_top(back, rest) =~~= resolved_top(
                                        state,
                                        extended.push(file.deserialized) + rest,
                                    ));
                                },
                            }
                            1 + n1 + n2
                        },
                    }
                }
            },
        }
    }
}

/// The walk of the chain of a file `root` arrives at the chain of the file:
/// it ends with the fragments of the chain, in the order of the chain, where
/// the chain has fragments, and it fails as the chain does where the chain
/// fails. That holds of every chain, however deep, that `chain_of_file`
/// reaches at some depth; a chain in which a file extends itself is among
/// them, and the walk of such a chain ends.
pub proof fn law_walk_arrives_at_chain(
    lookups: Lookups,
    root: ConfigurationPayloadView,
    depth: nat,
) -> (steps: nat)
    requires
        chain_of_file(lookups, root, depth) is Some,
    ensures
        walked(lookups, ResolverView::initial(root).proceeded(), steps).1 == match chain_of_file(
            lookups,
            root,
            depth,
        )->0 {
            Ok(fragments) => ActionView::Done { fragments },
            Err(e) => ActionView::Fail(e),
        },
        walked(lookups, ResolverView::initial(root).proceeded(), steps).0
            == ResolverView::finished(),
{
    let start = ResolverView::initial(root);
    assert(start.chain() =~= seq![root.configuration_file_path]);
    let steps = lemma_walk_resolves_top(lookups, start, depth);
    match chain_of_file(lookups, root, depth)->0 {
        Ok(fragments) => {
            let end = resolved_top(start, fragments);
            let popped = ResolverView { stack: end.stack.drop_last(), fragments: end.fragments };
            assert(end.settled() == popped.settled());
            assert(popped.stack.len() == 0);
            assert(end.fragments =~= fragments);
        },
        Err(e) => {},
    }
    steps
}

/// Whether the path of every file that the caller finds is among `paths`.
pub open spec fn finds_within(lookups: Lookups, paths: Set<Seq<char>>) -> bool {
    forall|specifier: Seq<char>, base: Seq<char>|
        (#[trigger] lookups(specifier, base)) matches ResolutionView::Found(file)
            ==> paths.contains(file.configuration_file_path)
}

/// Paths that are all different and all among `paths` are no more than
/// `paths` are.
proof fn lemma_distinct_within(chain: Seq<Seq<char>>, paths: Set<Seq<char>>)
    requires
        paths.finite(),
        chain.no_duplicates(),
        forall|i: int| 0 <= i < chain.len() ==> paths.contains(#[trigger] chain[i]),
    ensures
        chain.len() <= paths.len(),
{
    chain.unique_seq_to_set();
    assert(chain.to_set().subset_of(paths)) by {
        assert forall|p: Seq<char>| chain.to_set().contains(p) implies paths.contains(p) by {
            let i = choose|i: int| 0 <= i < chain.len() && chain[i] == p;
            assert(paths.contains(chain[i]));
        }
    }
    vstd::set_lib::lemma_len_subset(chain.to_set(), paths);
}

/// Where the files are among finitely many, a chain is no deeper than there
/// are files that are no ancestors yet.
proof fn lemma_chain_is_shallow(
    lookups: Lookups,
    entries: Seq<Seq<char>>,
    base: Seq<char>,
    ancestors: Seq<Seq<char>>,
    depth: nat,
    paths: Set<Seq<char>>,
)
    requires
        paths.finite(),
        finds_within(lookups, paths),
        ancestors.no_duplicates(),
        forall|i: int| 0 <= i < ancestors.len() ==> paths.contains(#[trigger] ancestors[i]),
        depth + ancestors.len() >= paths.len(),
    ensures
        chain_of(lookups, entries, base, ancestors, depth) is Some,
    decreases depth, entries.len(),
{
    if entries.len() > 0 {
        match lookups(entries[0], base) {
            ResolutionView::NotFound { .. } => {},
            ResolutionView::Unreadable { .. } => {},
            ResolutionView::Malformed { .. } => {},
            ResolutionView::Invalid { .. } => {},
            ResolutionView::Found(file) => {
                let path = file.configuration_file_path;
                if !ancestors.contains(path) {
                    let longer = ancestors.push(path);
                    assert(paths.contains(path));
                    assert(longer.no_duplicates());
                    assert forall|i: int| 0 <= i < longer.len() implies paths.contains(
                        #[trigger] longer[i],
                    ) by {
                        if i < ancestors.len() {
                            assert(longer[i] == ancestors[i]);
                        }
                    }
                    lemma_distinct_within(longer, paths);
                    lemma_chain_is_shallow(
                        lookups,
                        or_default(file.deserialized.extends, Seq::empty()),
                        file.external_resolution_base_path,
                        longer,
                        (depth - 1) as nat,
                        paths,
                    );
                    lemma_chain_is_shallow(
                        lookups,
                        entries.skip(1),
                        base,
                        ancestors,
                        depth,
                        paths,
                    );
                }
            },
        }
    }
}

/// Where the files that can be found are among finitely many, every walk
/// ends, with the fragments of the chain or with its failure: a chain cannot
/// be deeper than there are files, since no file is let into a chain twice.
pub proof fn law_walk_among_finitely_many_files_ends(
    lookups: Lookups,
    root: ConfigurationPayloadView,
    paths: Set<Seq<char>>,
) -> (steps: nat)
    requires
        paths.finite(),
        finds_within(lookups, paths),
        paths.contains(root.configuration_file_path),
    ensures
        chain_of_file(lookups, root, paths.len()) is Some,
        walked(lookups, ResolverView::initial(root).proceeded(), steps).1 == match chain_of_file(
            lookups,
            root,
            paths.len(),
        )->0 {
            Ok(fragments) => ActionView::Done { fragments },
            Err(e) => ActionView::Fail(e),
        },
{
    let ancestors = seq![root.configuration_file_path];
    lemma_chain_is_shallow(
        lookups,
        or_default(root.deserialized.extends, Seq::empty()),
        root.external_resolution_base_path,
        ancestors,
        paths.len(),
        paths,
    );
    law_walk_arrives_at_chain(lookups, root, paths.len())
}

/// A file that an entry of one of its own descendants stands for ends the
/// walk at once, with the chain from the first file to that file.
pub proof fn law_cycle_is_refused(state: ResolverView, file: ConfigurationPayloadView)
    requires
        state.awaiting(),
        state.chain().contains(file.configuration_file_path),
    ensures
        state.resumed(ResolutionView::Found(file)) == (
            ResolverView::finished(),
            ActionView::Fail(
                ExtendsErrorView::Cycle { chain: state.chain().push(file.configuration_file_path) },
            ),
        ),
{
}

/// No path occurs twice among the files at hand: not before the walk, and
/// not after a step of a walk of which it held before.
pub proof fn law_chain_holds_no_path_twice(
    root: ConfigurationPayloadView,
    state: ResolverView,
    resolution: ResolutionView,
)
    ensures
        ResolverView::initial(root).chain().no_duplicates(),
        state.chain().no_duplicates() ==> state.proceeded().0.chain().no_duplicates(),
        state.chain().no_duplicates() ==> state.resumed(resolution).0.chain().no_duplicates(),
{
    if state.chain().no_duplicates() {
        lemma_settled_chain(state);
        if state.awaiting() {
            match resolution {
                ResolutionView::Found(file) => {
                    if !state.chain().contains(file.configuration_file_path) {
                        let frame = FrameView {
                            path: file.configuration_file_path,
                            base: file.external_resolution_base_path,
                            pending: or_default(file.deserialized.extends, Seq::empty()),
                            fragment: Some(file.deserialized),
                        };
                        let inner = ResolverView {
                            stack: state.answered().push(frame),
                            fragments: state.fragments,
                        };
                        assert(inner.chain() =~= state.chain().push(file.configuration_file_path));
                        lemma_settled_chain(inner);
                    }
                },
                _ => {},
            }
        }
    }
}

/// Settling takes files off the end of the chain and changes nothing else of
/// it.
proof fn lemma_settled_chain(state: ResolverView)
    ensures
        state.settled().chain() == state.chain().subrange(0, state.settled().stack.len() as int),
        state.settled().stack.len() <= state.stack.len(),
        state.chain().no_duplicates() ==> state.settled().chain().no_duplicates(),
    decreases state.stack.len(),
{
    if state.stack.len() > 0 && state.stack.last().pending.len() == 0 {
        let popped = ResolverView {
            stack: state.stack.drop_last(),
            fragments: match state.stack.last().fragment {
                Some(f) => state.fragments.push(f),
                None => state.fragments,
            },
        };
        lemma_settled_chain(popped);
        assert(popped.chain() =~= state.chain().subrange(0, popped.stack.len() as int));
        assert(state.settled().chain() =~= state.chain().subrange(
            0,
            state.settled().stack.len() as int,
        ));
    } else {
        assert(state.chain().subrange(0, state.stack.len() as int) =~= state.chain());
    }
}

} // verus!
