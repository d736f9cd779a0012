//! What holds of paths read as components: joining, rendering and
//! reading again, and where a component `..` can come from.

use vstd::prelude::*;
use crate::commands::{has_parent_component, normalized_subpath, parent_at, subpath_error};
use crate::path::{
    components, dotdot, is_rooted, is_sep, join_spec, joined, keep, posix_form, render, scan,
    starts_with_spec,
};
use crate::vm::HostOs;

verus! {

/// Whether `c` can stand as a component: it is not empty, holds no `/`
/// and is not `.`.
pub open spec fn plain(c: Seq<char>) -> bool {
    &&& c.len() > 0
    &&& c != seq!['.']
    &&& forall|i: int| 0 <= i < c.len() ==> c[i] != '/'
}

/// Whether every component of `parts` is plain.
pub open spec fn all_plain(parts: Seq<Seq<char>>) -> bool {
    forall|k: int| 0 <= k < parts.len() ==> plain(#[trigger] parts[k])
}

/// The reading of `t` continued from the state `state` of a reading.
pub open spec fn scan_from(state: (Seq<Seq<char>>, Seq<char>), t: Seq<char>, wide: bool) -> (
    Seq<Seq<char>>,
    Seq<char>,
)
    decreases t.len(),
{
    if t.len() == 0 {
        state
    } else {
        let before = scan_from(state, t.drop_last(), wide);
        if is_sep(t.last(), wide) {
            (keep(before.0, before.1), Seq::empty())
        } else {
            (before.0, before.1.push(t.last()))
        }
    }
}

/// Reading `s` and then `t` is reading `t` from where reading `s` ended.
pub proof fn lemma_scan_concat(s: Seq<char>, t: Seq<char>, wide: bool)
    ensures
        scan(s + t, wide) == scan_from(scan(s, wide), t, wide),
    decreases t.len(),
{
    if t.len() == 0 {
        assert(s + t =~= s);
    } else {
        lemma_scan_concat(s, t.drop_last(), wide);
        assert((s + t).drop_last() =~= s + t.drop_last());
        assert((s + t).last() == t.last());
    }
}

/// Reading a text without separators only lengthens the run at hand.
pub proof fn lemma_scan_from_run(state: (Seq<Seq<char>>, Seq<char>), t: Seq<char>)
    requires
        forall|i: int| 0 <= i < t.len() ==> t[i] != '/',
    ensures
        scan_from(state, t, false) == (state.0, state.1 + t),
    decreases t.len(),
{
    if t.len() == 0 {
        assert(state.1 + t =~= state.1);
    } else {
        lemma_scan_from_run(state, t.drop_last());
        assert((state.1 + t.drop_last()).push(t.last()) =~= state.1 + t);
    }
}

/// Reading on from a state without a run at hand puts the components
/// of what is read after those read before.
pub proof fn lemma_scan_from_fresh(done: Seq<Seq<char>>, t: Seq<char>, wide: bool)
    ensures
        scan_from((done, Seq::empty()), t, wide) == (done + scan(t, wide).0, scan(t, wide).1),
    decreases t.len(),
{
    if t.len() == 0 {
        assert(done + Seq::<Seq<char>>::empty() =~= done);
    } else {
        lemma_scan_from_fresh(done, t.drop_last(), wide);
        let before = scan(t.drop_last(), wide);
        if is_sep(t.last(), wide) {
            assert(keep(done + before.0, before.1) =~= done + keep(before.0, before.1));
        }
    }
}

/// The components of `base` followed by `/` are those of `base`, and
/// no run is at hand after them.
pub proof fn lemma_scan_closed(base: Seq<char>)
    ensures
        scan(base + seq!['/'], false) == (components(base, false), Seq::<char>::empty()),
{
    let s = base + seq!['/'];
    assert(s.drop_last() =~= base);
    assert(s.last() == '/');
}

/// A path placed under a base has the components of the base and
/// then its own, and lies at or below the base.
pub proof fn law_join_stays_below(base: Seq<char>, rel: Seq<char>)
    requires
        !is_rooted(rel),
    ensures
        components(join_spec(base, rel), false) == components(base, false) + components(
            rel,
            false,
        ),
        starts_with_spec(join_spec(base, rel), base),
{
    let cb = components(base, false);
    let cr = components(rel, false);
    if base.len() == 0 {
        assert(base + rel =~= rel);
        assert(cb + cr =~= cr);
    } else if base.last() == '/' {
        assert(scan(base, false).1 == Seq::<char>::empty());
        lemma_scan_concat(base, rel, false);
        lemma_scan_from_fresh(scan(base, false).0, rel, false);
        assert(keep(cb + scan(rel, false).0, scan(rel, false).1) =~= cb + cr);
        assert((base + rel)[0] == base[0]);
    } else {
        lemma_scan_closed(base);
        lemma_scan_concat(base + seq!['/'], rel, false);
        lemma_scan_from_fresh(cb, rel, false);
        assert(keep(cb + scan(rel, false).0, scan(rel, false).1) =~= cb + cr);
        assert((base + seq!['/'] + rel)[0] == base[0]);
    }
    assert((cb + cr).subrange(0, cb.len() as int) =~= cb);
}

/// A plain component is the one component of itself.
pub proof fn lemma_components_of_plain(name: Seq<char>)
    requires
        plain(name),
    ensures
        components(name, false) == seq![name],
{
    lemma_scan_concat(Seq::empty(), name, false);
    lemma_scan_from_run((Seq::empty(), Seq::empty()), name);
    assert(Seq::<char>::empty() + name =~= name);
    assert(Seq::<Seq<char>>::empty().push(name) =~= seq![name]);
}

/// What was read of `s` is plain, and the run at hand holds no
/// separator.
pub proof fn lemma_scan_plain(s: Seq<char>, wide: bool)
    ensures
        all_plain(scan(s, wide).0),
        forall|i: int| 0 <= i < scan(s, wide).1.len() ==> scan(s, wide).1[i] != '/',
    decreases s.len(),
{
    if s.len() > 0 {
        lemma_scan_plain(s.drop_last(), wide);
    }
}

/// The components of a path are plain, in either reading.
pub proof fn law_components_are_plain(s: Seq<char>, wide: bool)
    ensures
        all_plain(components(s, wide)),
{
    lemma_scan_plain(s, wide);
}

/// Reading the rendering of plain components ends with the last at
/// hand and the others read.
proof fn lemma_scan_joined(parts: Seq<Seq<char>>)
    requires
        all_plain(parts),
        parts.len() > 0,
    ensures
        scan(joined(parts), false) == (parts.drop_last(), parts.last()),
    decreases parts.len(),
{
    if parts.len() == 1 {
        lemma_scan_concat(Seq::empty(), parts[0], false);
        lemma_scan_from_run((Seq::empty(), Seq::empty()), parts[0]);
        assert(Seq::<char>::empty() + parts[0] =~= parts[0]);
        assert(parts.drop_last() =~= Seq::empty());
    } else {
        let head = parts.drop_last();
        assert(all_plain(head)) by {
            assert forall|k: int| 0 <= k < head.len() implies plain(#[trigger] head[k]) by {
                assert(head[k] == parts[k]);
            }
        }
        lemma_scan_joined(head);
        let text = joined(head);
        lemma_scan_closed(text);
        assert(components(text, false) =~= head) by {
            assert(plain(head.last()));
            assert(head.drop_last().push(head.last()) =~= head);
        }
        lemma_scan_concat(text + seq!['/'], parts.last(), false);
        assert(plain(parts.last()));
        lemma_scan_from_run((head, Seq::empty()), parts.last());
        assert(Seq::<char>::empty() + parts.last() =~= parts.last());
    }
}

/// Plain components that are rendered and read again are the same
/// components, and their rendering is not rooted.
pub proof fn law_render_round_trip(parts: Seq<Seq<char>>)
    requires
        all_plain(parts),
    ensures
        components(render(false, parts), false) == parts,
        !is_rooted(render(false, parts)),
    decreases parts.len(),
{
    if parts.len() > 0 {
        lemma_scan_joined(parts);
        assert(plain(parts.last()));
        assert(parts.drop_last().push(parts.last()) =~= parts);
        lemma_joined_first(parts);
        assert(plain(parts[0]));
    }
}

/// The rendering of components begins with the first of them.
proof fn lemma_joined_first(parts: Seq<Seq<char>>)
    requires
        parts.len() > 0,
        parts[0].len() > 0,
    ensures
        joined(parts).len() > 0,
        joined(parts)[0] == parts[0][0],
    decreases parts.len(),
{
    if parts.len() > 1 {
        lemma_joined_first(parts.drop_last());
    }
}

/// Whether a run `..` that a separator closes stands at position `i`
/// of `s`.
pub open spec fn closed_parent_at(s: Seq<char>, i: int) -> bool {
    &&& 0 <= i
    &&& i + 2 < s.len()
    &&& s[i] == '.'
    &&& s[i + 1] == '.'
    &&& (i == 0 || is_sep(s[i - 1], true))
    &&& is_sep(s[i + 2], true)
}

/// The run at hand is the end of what was read and begins after a
/// separator or at the start; a component `..` that was read stands in
/// the text, closed by a separator.
proof fn lemma_scan_positions(s: Seq<char>, wide: bool)
    ensures
        scan(s, wide).1.len() <= s.len(),
        scan(s, wide).1 == s.subrange(s.len() - scan(s, wide).1.len(), s.len() as int),
        scan(s, wide).1.len() == s.len() || is_sep(s[s.len() - scan(s, wide).1.len() - 1], true),
        scan(s, wide).0.contains(dotdot()) ==> exists|i: int| closed_parent_at(s, i),
    decreases s.len(),
{
    if s.len() > 0 {
        let head = s.drop_last();
        lemma_scan_positions(head, wide);
        let before = scan(head, wide);
        let start = head.len() - before.1.len();
        if is_sep(s.last(), wide) {
            assert(scan(s, wide).1 =~= s.subrange(s.len() as int, s.len() as int));
            if scan(s, wide).0.contains(dotdot()) {
                if before.0.contains(dotdot()) {
                    let i = choose|i: int| closed_parent_at(head, i);
                    assert(closed_parent_at(s, i));
                } else {
                    let k = choose|k: int|
                        0 <= k < scan(s, wide).0.len() && scan(s, wide).0[k] == dotdot();
                    if k < before.0.len() {
                        assert(before.0[k] == dotdot());
                        assert(before.0.contains(dotdot()));
                    }
                    assert(before.1 == dotdot());
                    assert(before.1[0] == '.' && before.1[1] == '.');
                    assert(head.subrange(start, head.len() as int)[0] == head[start]);
                    assert(head.subrange(start, head.len() as int)[1] == head[start + 1]);
                    assert(closed_parent_at(s, start));
                }
            }
        } else {
            assert(scan(s, wide).1 =~= s.subrange(start, s.len() as int));
            if before.0.contains(dotdot()) {
                let i = choose|i: int| closed_parent_at(head, i);
                assert(closed_parent_at(s, i));
            }
        }
    } else {
        assert(scan(s, wide).1 =~= s.subrange(0, 0));
    }
}

/// A path with a component `..`, in either reading, holds a run `..`
/// between separators or the ends of the path.
pub proof fn law_parent_component_is_seen(s: Seq<char>, wide: bool)
    ensures
        components(s, wide).contains(dotdot()) ==> has_parent_component(s),
{
    lemma_scan_positions(s, wide);
    let done = scan(s, wide).0;
    let cur = scan(s, wide).1;
    if components(s, wide).contains(dotdot()) {
        if done.contains(dotdot()) {
            let i = choose|i: int| closed_parent_at(s, i);
            assert(parent_at(s, i));
        } else {
            let k = choose|k: int|
                0 <= k < components(s, wide).len() && components(s, wide)[k] == dotdot();
            if k < done.len() {
                assert(done[k] == dotdot());
                assert(done.contains(dotdot()));
            }
            assert(cur == dotdot());
            let start = s.len() - 2;
            assert(cur[0] == '.' && cur[1] == '.');
            assert(s.subrange(start, s.len() as int)[0] == s[start]);
            assert(s.subrange(start, s.len() as int)[1] == s[start + 1]);
            assert(parent_at(s, start));
        }
    }
}

/// A subpath that is accepted stays below every root under which it is
/// placed, in either reading: rendered from its components it is not
/// rooted, none of its components ascends, and the joined path has the
/// components of the root and then those of the subpath.
pub proof fn law_accepted_subpath_stays_below(root: Seq<char>, s: Seq<char>, wide: bool)
    requires
        subpath_error(s) is None,
    ensures
        !is_rooted(render(false, components(s, wide))),
        components(render(false, components(s, wide)), false) == components(s, wide),
        !components(s, wide).contains(dotdot()),
        starts_with_spec(join_spec(root, render(false, components(s, wide))), root),
        components(join_spec(root, render(false, components(s, wide))), false) == components(
            root,
            false,
        ) + components(s, wide),
        normalized_subpath(s) == render(false, components(s, false)),
{
    law_components_are_plain(s, wide);
    law_render_round_trip(components(s, wide));
    law_parent_component_is_seen(s, wide);
    law_join_stays_below(root, render(false, components(s, wide)));
}

/// Every subpath with a component `..`, in either reading, with a
/// separator at its start or with a drive letter at its start is
/// refused.
pub proof fn law_unsafe_subpath_is_refused(s: Seq<char>)
    ensures
        components(s, true).contains(dotdot()) ==> subpath_error(s) is Some,
        components(s, false).contains(dotdot()) ==> subpath_error(s) is Some,
        s.len() > 0 && is_sep(s[0], true) ==> subpath_error(s) is Some,
        crate::commands::has_drive_prefix(s) ==> subpath_error(s) is Some,
{
    law_parent_component_is_seen(s, true);
    law_parent_component_is_seen(s, false);
}

/// Reading the slash form of a Windows path is reading the path with
/// `/` and `\\` both as separators.
pub proof fn lemma_windows_scan(s: Seq<char>)
    ensures
        scan(posix_form(s, HostOs::Windows), false) == scan(s, true),
    decreases s.len(),
{
    let t = posix_form(s, HostOs::Windows);
    if s.len() > 0 {
        lemma_windows_scan(s.drop_last());
        assert(t.drop_last() =~= posix_form(s.drop_last(), HostOs::Windows));
        assert(is_sep(t.last(), false) == is_sep(s.last(), true));
        if !is_sep(s.last(), true) {
            assert(t.last() == s.last());
        }
    }
}

/// On a Windows host the components of a path are the runs between
/// `/` and `\\` alike; on every other host those between `/`.
pub proof fn law_host_components(s: Seq<char>, os: HostOs)
    ensures
        components(posix_form(s, os), false) == components(s, os == HostOs::Windows),
{
    if os == HostOs::Windows {
        lemma_windows_scan(s);
    }
}

} // verus!
