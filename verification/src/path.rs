//! A model of file-system paths as text, and the operations on it.
//!
//! A path is a sequence of characters. It is read as a list of components,
//! the runs of characters between separators; empty runs and the run `.`
//! do not count.
//!
//! The operations are defined on the slash form of a path, in which `/`
//! alone separates. A path of a host is brought into that form first: on
//! Windows every `\` becomes `/`, so that a drive and the prefix of a
//! verbatim path stand as the first components and two paths lie below one
//! another only where these agree; on every other host the path is in
//! slash form as it is. A path that is handed out is brought back into the
//! form of the host, on Windows with `\` alone. The functions that take the
//! host do both; those named `slash_...` take and give the slash form.
//!
//! Where a path comes from a user and must be refused on every host on
//! which it could leave its root, `\` is taken as a separator too (the
//! `wide` reading).

use vstd::prelude::*;
use crate::text::{append_chars, chars_of, opt_text, string_of};
use crate::vm::HostOs;

verus! {

/// Whether `c` separates components; in the wide reading `\` does too.
pub open spec fn is_sep(c: char, wide: bool) -> bool {
    c == '/' || (wide && c == '\\')
}

/// The component `..`, which names the parent directory.
pub open spec fn dotdot() -> Seq<char> {
    seq!['.', '.']
}

/// The list `done`, with the run `cur` added if it counts as a component.
pub open spec fn keep(done: Seq<Seq<char>>, cur: Seq<char>) -> Seq<Seq<char>> {
    if cur.len() == 0 || cur == seq!['.'] {
        done
    } else {
        done.push(cur)
    }
}

/// Reads `s` from left to right: the components that a separator has
/// closed, and the run of characters after the last separator.
pub open spec fn scan(s: Seq<char>, wide: bool) -> (Seq<Seq<char>>, Seq<char>)
    decreases s.len(),
{
    if s.len() == 0 {
        (Seq::empty(), Seq::empty())
    } else {
        let before = scan(s.drop_last(), wide);
        if is_sep(s.last(), wide) {
            (keep(before.0, before.1), Seq::empty())
        } else {
            (before.0, before.1.push(s.last()))
        }
    }
}

/// The components of the path `s`.
pub open spec fn components(s: Seq<char>, wide: bool) -> Seq<Seq<char>> {
    keep(scan(s, wide).0, scan(s, wide).1)
}

/// Whether `s` begins at the root directory.
pub open spec fn is_rooted(s: Seq<char>) -> bool {
    s.len() > 0 && s[0] == '/'
}

/// The components `parts` with one `/` between neighbours.
pub open spec fn joined(parts: Seq<Seq<char>>) -> Seq<char>
    decreases parts.len(),
{
    if parts.len() == 0 {
        Seq::empty()
    } else if parts.len() == 1 {
        parts[0]
    } else {
        joined(parts.drop_last()) + seq!['/'] + parts.last()
    }
}

/// The text of the path with the components `parts`, rooted or not.
pub open spec fn render(rooted: bool, parts: Seq<Seq<char>>) -> Seq<char> {
    if rooted {
        seq!['/'] + joined(parts)
    } else {
        joined(parts)
    }
}

/// The path `rel` placed under `base`: a rooted `rel` replaces `base`,
/// and a separator is put between the two where `base` does not end in one.
pub open spec fn join_spec(base: Seq<char>, rel: Seq<char>) -> Seq<char> {
    if is_rooted(rel) {
        rel
    } else if base.len() == 0 || base.last() == '/' {
        base + rel
    } else {
        base + seq!['/'] + rel
    }
}

/// Whether the path `p` lies at or below the path `root`, component by
/// component.
pub open spec fn starts_with_spec(p: Seq<char>, root: Seq<char>) -> bool {
    is_rooted(p) == is_rooted(root) && components(root, false).is_prefix_of(
        components(p, false),
    )
}

/// The last component of `p`, unless there is none or it is `..`.
pub open spec fn file_name_spec(p: Seq<char>) -> Option<Seq<char>> {
    let parts = components(p, false);
    if parts.len() == 0 || parts.last() == dotdot() {
        None
    } else {
        Some(parts.last())
    }
}

/// The path `p` without its last component, in rendered form; `None`
/// where `p` has no component.
pub open spec fn parent_spec(p: Seq<char>) -> Option<Seq<char>> {
    let parts = components(p, false);
    if parts.len() == 0 {
        None
    } else {
        Some(render(is_rooted(p), parts.drop_last()))
    }
}

/// The components of `p` that follow those of `base`; `None` where `p`
/// does not lie at or below `base`.
pub open spec fn strip_prefix_spec(p: Seq<char>, base: Seq<char>) -> Option<Seq<Seq<char>>> {
    if starts_with_spec(p, base) {
        Some(components(p, false).skip(components(base, false).len() as int))
    } else {
        None
    }
}

/// The views of the character vectors in `v`.
pub open spec fn parts_view(v: Seq<Vec<char>>) -> Seq<Seq<char>> {
    Seq::new(v.len(), |i: int| v[i]@)
}

/// Whether `a` and `b` hold the same characters.
pub fn same_chars(a: &Vec<char>, b: &Vec<char>) -> (r: bool)
    ensures
        r == (a@ == b@),
{
    if a.len() != b.len() {
        return false;
    }
    let mut i: usize = 0;
    while i < a.len()
        invariant
            i <= a.len(),
            a.len() == b.len(),
            forall|j: int| 0 <= j < i ==> a@[j] == b@[j],
        decreases a.len() - i,
    {
        if a[i] != b[i] {
            return false;
        }
        i = i + 1;
    }
    assert(a@ =~= b@);
    true
}

/// Whether the component `c` is `..`.
pub fn is_parent_component(c: &Vec<char>) -> (r: bool)
    ensures
        r == (c@ == dotdot()),
{
    let r = c.len() == 2 && c[0] == '.' && c[1] == '.';
    proof {
        if r {
            assert(c@ =~= dotdot());
        }
    }
    r
}

/// Splits the path `s` into its components.
pub fn split_components(s: &Vec<char>, wide: bool) -> (out: Vec<Vec<char>>)
    ensures
        parts_view(out@) == components(s@, wide),
{
    let mut done: Vec<Vec<char>> = Vec::new();
    let mut cur: Vec<char> = Vec::new();
    let mut i: usize = 0;
    assert(parts_view(done@) =~= Seq::<Seq<char>>::empty());
    while i < s.len()
        invariant
            i <= s.len(),
            parts_view(done@) == scan(s@.take(i as int), wide).0,
            cur@ == scan(s@.take(i as int), wide).1,
        decreases s.len() - i,
    {
        let c = s[i];
        proof {
            assert(s@.take(i + 1).drop_last() == s@.take(i as int));
            assert(s@.take(i + 1).last() == c);
        }
        if c == '/' || (wide && c == '\\') {
            let plain = cur.len() == 0 || (cur.len() == 1 && cur[0] == '.');
            proof {
                if cur.len() == 1 && cur[0] == '.' {
                    assert(cur@ =~= seq!['.']);
                }
            }
            if !plain {
                let ghost before = parts_view(done@);
                let ghost run = cur@;
                done.push(cur);
                assert(parts_view(done@) =~= before.push(run));
            }
            cur = Vec::new();
        } else {
            cur.push(c);
        }
        i = i + 1;
    }
    assert(s@.take(s.len() as int) == s@);
    let plain = cur.len() == 0 || (cur.len() == 1 && cur[0] == '.');
    proof {
        if cur.len() == 1 && cur[0] == '.' {
            assert(cur@ =~= seq!['.']);
        }
    }
    if !plain {
        let ghost before = parts_view(done@);
        let ghost run = cur@;
        done.push(cur);
        assert(parts_view(done@) =~= before.push(run));
    }
    done
}

/// The text of the path made of the first `count` components of `parts`.
pub fn render_path(rooted: bool, parts: &Vec<Vec<char>>, count: usize) -> (out: Vec<char>)
    requires
        count <= parts.len(),
    ensures
        out@ == render(rooted, parts_view(parts@).take(count as int)),
{
    let mut body: Vec<char> = Vec::new();
    let mut k: usize = 0;
    let ghost all = parts_view(parts@);
    while k < count
        invariant
            k <= count <= parts.len(),
            all == parts_view(parts@),
            body@ == joined(all.take(k as int)),
        decreases count - k,
    {
        proof {
            assert(all.take(k + 1).drop_last() == all.take(k as int));
            assert(all.take(k + 1).last() == parts@[k as int]@);
        }
        if k > 0 {
            body.push('/');
        }
        append_chars(&mut body, &parts[k]);
        proof {
            if k == 0 {
                assert(all.take(1)[0] == parts@[0]@);
                assert(body@ =~= parts@[0]@);
            }
        }
        k = k + 1;
    }
    if rooted {
        let mut out: Vec<char> = Vec::new();
        out.push('/');
        append_chars(&mut out, &body);
        assert(out@ =~= seq!['/'] + body@);
        out
    } else {
        body
    }
}

/// Whether the path `s` begins at the root directory.
pub fn starts_at_root(s: &Vec<char>) -> (r: bool)
    ensures
        r == is_rooted(s@),
{
    s.len() > 0 && s[0] == '/'
}

/// Whether the components `head` are the first components of `all`.
pub fn parts_prefix(head: &Vec<Vec<char>>, all: &Vec<Vec<char>>) -> (r: bool)
    ensures
        r == parts_view(head@).is_prefix_of(parts_view(all@)),
{
    if head.len() > all.len() {
        return false;
    }
    let mut i: usize = 0;
    while i < head.len()
        invariant
            i <= head.len() <= all.len(),
            forall|j: int| 0 <= j < i ==> head@[j]@ == all@[j]@,
        decreases head.len() - i,
    {
        if !same_chars(&head[i], &all[i]) {
            proof {
                let a = parts_view(head@);
                let b = parts_view(all@);
                assert(a[i as int] != b.subrange(0, a.len() as int)[i as int]);
            }
            return false;
        }
        i = i + 1;
    }
    proof {
        let a = parts_view(head@);
        let b = parts_view(all@);
        assert(a =~= b.subrange(0, a.len() as int));
    }
    true
}

/// Places the path `rel` under the path `base`.
pub fn join_paths(base: &str, rel: &str) -> (out: String)
    ensures
        out@ == join_spec(base@, rel@),
{
    let b = chars_of(base);
    let r = chars_of(rel);
    if starts_at_root(&r) {
        return string_of(&r);
    }
    let mut out: Vec<char> = Vec::new();
    append_chars(&mut out, &b);
    if b.len() > 0 && b[b.len() - 1] != '/' {
        out.push('/');
    }
    append_chars(&mut out, &r);
    proof {
        if base@.len() == 0 || base@.last() == '/' {
            assert(out@ =~= base@ + rel@);
        } else {
            assert(out@ =~= base@ + seq!['/'] + rel@);
        }
    }
    string_of(&out)
}

/// Whether the path `p` lies at or below the path `root`.
pub fn slash_starts_with(p: &str, root: &str) -> (r: bool)
    ensures
        r == starts_with_spec(p@, root@),
{
    let pc = chars_of(p);
    let rc = chars_of(root);
    if starts_at_root(&pc) != starts_at_root(&rc) {
        return false;
    }
    let pp = split_components(&pc, false);
    let rp = split_components(&rc, false);
    parts_prefix(&rp, &pp)
}

/// Whether the paths `a` and `b` are the same path: both rooted or both
/// not, with the same components.
pub open spec fn same_path_spec(a: Seq<char>, b: Seq<char>) -> bool {
    is_rooted(a) == is_rooted(b) && components(a, false) == components(b, false)
}

/// Whether `a` and `b` are the same path.
pub fn slash_same_path(a: &str, b: &str) -> (r: bool)
    ensures
        r == same_path_spec(a@, b@),
{
    let ac = chars_of(a);
    let bc = chars_of(b);
    if starts_at_root(&ac) != starts_at_root(&bc) {
        return false;
    }
    let ap = split_components(&ac, false);
    let bp = split_components(&bc, false);
    if ap.len() != bp.len() {
        assert(parts_view(ap@).len() != parts_view(bp@).len());
        return false;
    }
    let r = parts_prefix(&ap, &bp);
    proof {
        let x = parts_view(ap@);
        let y = parts_view(bp@);
        assert(y.subrange(0, x.len() as int) =~= y);
    }
    r
}

/// The last component of `p`, unless there is none or it is `..`.
pub fn slash_file_name(p: &str) -> (out: Option<String>)
    ensures
        out is Some == file_name_spec(p@) is Some,
        out is Some ==> out->0@ == file_name_spec(p@)->0,
{
    let pc = chars_of(p);
    let parts = split_components(&pc, false);
    if parts.len() == 0 {
        return None;
    }
    let last = &parts[parts.len() - 1];
    if is_parent_component(last) {
        None
    } else {
        Some(string_of(last))
    }
}

/// The path `p` without its last component; `None` where `p` has no
/// component.
pub fn slash_parent_dir(p: &str) -> (out: Option<String>)
    ensures
        out is Some == parent_spec(p@) is Some,
        out is Some ==> out->0@ == parent_spec(p@)->0,
{
    let pc = chars_of(p);
    let parts = split_components(&pc, false);
    if parts.len() == 0 {
        return None;
    }
    let text = render_path(starts_at_root(&pc), &parts, parts.len() - 1);
    proof {
        let all = parts_view(parts@);
        assert(all.take(all.len() - 1) == all.drop_last());
    }
    Some(string_of(&text))
}

/// The path of the components of `p` that follow those of `base`, in
/// rendered form; `None` where `p` does not lie at or below `base`.
pub fn slash_relative_to(p: &str, base: &str) -> (out: Option<String>)
    ensures
        out is Some == strip_prefix_spec(p@, base@) is Some,
        out is Some ==> out->0@ == render(false, strip_prefix_spec(p@, base@)->0),
{
    let pc = chars_of(p);
    let bc = chars_of(base);
    if starts_at_root(&pc) != starts_at_root(&bc) {
        return None;
    }
    let pp = split_components(&pc, false);
    let bp = split_components(&bc, false);
    if !parts_prefix(&bp, &pp) {
        return None;
    }
    let rest = skip_parts(&pp, bp.len());
    let text = render_path(false, &rest, rest.len());
    proof {
        let all = parts_view(rest@);
        assert(all.take(all.len() as int) == all);
    }
    Some(string_of(&text))
}

/// The components of `parts` from position `from` on.
pub fn skip_parts(parts: &Vec<Vec<char>>, from: usize) -> (out: Vec<Vec<char>>)
    requires
        from <= parts.len(),
    ensures
        parts_view(out@) == parts_view(parts@).skip(from as int),
{
    let mut out: Vec<Vec<char>> = Vec::new();
    let mut i: usize = from;
    while i < parts.len()
        invariant
            from <= i <= parts.len(),
            out.len() == i - from,
            forall|j: int| 0 <= j < out.len() ==> out@[j]@ == parts@[from + j]@,
        decreases parts.len() - i,
    {
        let mut copy: Vec<char> = Vec::new();
        append_chars(&mut copy, &parts[i]);
        assert(copy@ =~= parts@[i as int]@);
        out.push(copy);
        i = i + 1;
    }
    assert(parts_view(out@) =~= parts_view(parts@).skip(from as int));
    out
}

/// The position of the last `.` in `name`, or -1 where there is none.
pub open spec fn last_dot(name: Seq<char>) -> int
    decreases name.len(),
{
    if name.len() == 0 {
        -1
    } else if name.last() == '.' {
        name.len() - 1
    } else {
        last_dot(name.drop_last())
    }
}

/// The extension of the file name `name`: what follows its last `.`,
/// unless it has none or only one at its start.
pub open spec fn extension_of(name: Seq<char>) -> Option<Seq<char>> {
    if last_dot(name) <= 0 {
        None
    } else {
        Some(name.skip(last_dot(name) + 1))
    }
}

/// The file name `name` without its extension and the `.` before it.
pub open spec fn stem_of(name: Seq<char>) -> Seq<char> {
    if last_dot(name) <= 0 {
        name
    } else {
        name.take(last_dot(name))
    }
}

/// The extension of the last component of the path `p`.
pub open spec fn extension_spec(p: Seq<char>) -> Option<Seq<char>> {
    match file_name_spec(p) {
        Some(name) => extension_of(name),
        None => None,
    }
}

/// The last component of the path `p` without its extension.
pub open spec fn file_stem_spec(p: Seq<char>) -> Option<Seq<char>> {
    match file_name_spec(p) {
        Some(name) => Some(stem_of(name)),
        None => None,
    }
}

/// The last `.` of `name` lies within it, and no `.` follows it.
pub proof fn lemma_last_dot(name: Seq<char>)
    ensures
        -1 <= last_dot(name) < name.len(),
        last_dot(name) >= 0 ==> name[last_dot(name)] == '.',
        forall|j: int| last_dot(name) < j < name.len() ==> name[j] != '.',
    decreases name.len(),
{
    if name.len() > 0 && name.last() != '.' {
        lemma_last_dot(name.drop_last());
        assert forall|j: int| last_dot(name) < j < name.len() implies name[j] != '.' by {
            if j < name.len() - 1 {
                assert(name.drop_last()[j] == name[j]);
            }
        }
    }
}

/// The position of the last `.` in `name`.
fn find_last_dot(name: &Vec<char>) -> (out: Option<usize>)
    ensures
        out is Some == (last_dot(name@) >= 0),
        out is Some ==> out->0 == last_dot(name@),
{
    let mut found: Option<usize> = None;
    let mut i: usize = 0;
    while i < name.len()
        invariant
            i <= name.len(),
            found is Some == (last_dot(name@.take(i as int)) >= 0),
            found is Some ==> found->0 == last_dot(name@.take(i as int)),
        decreases name.len() - i,
    {
        proof {
            assert(name@.take(i + 1).drop_last() == name@.take(i as int));
            assert(name@.take(i + 1).last() == name@[i as int]);
            lemma_last_dot(name@.take(i as int));
        }
        if name[i] == '.' {
            found = Some(i);
        }
        i = i + 1;
    }
    assert(name@.take(name.len() as int) == name@);
    found
}

/// The characters of `v` from position `from` up to position `to`.
pub fn slice_chars(v: &Vec<char>, from: usize, to: usize) -> (out: Vec<char>)
    requires
        from <= to <= v.len(),
    ensures
        out@ == v@.subrange(from as int, to as int),
{
    let mut out: Vec<char> = Vec::new();
    let mut i: usize = from;
    while i < to
        invariant
            from <= i <= to <= v.len(),
            out@ == v@.subrange(from as int, i as int),
        decreases to - i,
    {
        out.push(v[i]);
        i = i + 1;
        assert(v@.subrange(from as int, i as int) =~= v@.subrange(from as int, i - 1).push(
            v@[i - 1],
        ));
    }
    out
}

/// The extension of the last component of the path `p`.
pub fn slash_extension(p: &str) -> (out: Option<String>)
    ensures
        opt_text(out) == extension_spec(p@),
{
    match slash_file_name(p) {
        None => None,
        Some(name) => {
            let chars = chars_of(name.as_str());
            match find_last_dot(&chars) {
                None => None,
                Some(k) => {
                    if k == 0 {
                        None
                    } else {
                        proof {
                            lemma_last_dot(chars@);
                        }
                        let ext = slice_chars(&chars, k + 1, chars.len());
                        assert(chars@.skip(k + 1) =~= chars@.subrange(k + 1, chars.len() as int));
                        Some(string_of(&ext))
                    }
                },
            }
        },
    }
}

/// The last component of the path `p` without its extension.
pub fn slash_file_stem(p: &str) -> (out: Option<String>)
    ensures
        opt_text(out) == file_stem_spec(p@),
{
    match slash_file_name(p) {
        None => None,
        Some(name) => {
            let chars = chars_of(name.as_str());
            match find_last_dot(&chars) {
                None => Some(name),
                Some(k) => {
                    if k == 0 {
                        Some(name)
                    } else {
                        proof {
                            lemma_last_dot(chars@);
                        }
                        let stem = slice_chars(&chars, 0, k);
                        assert(chars@.take(k as int) =~= chars@.subrange(0, k as int));
                        Some(string_of(&stem))
                    }
                },
            }
        },
    }
}

/// The text `s` with every `from` replaced by `to`.
pub open spec fn replaced(s: Seq<char>, from: char, to: char) -> Seq<char> {
    Seq::new(
        s.len(),
        |i: int|
            if s[i] == from {
                to
            } else {
                s[i]
            },
    )
}

/// The slash form of the path `s` of the host `os`: on Windows every
/// `\` is a `/`, elsewhere the path itself.
pub open spec fn posix_form(s: Seq<char>, os: HostOs) -> Seq<char> {
    if os == HostOs::Windows {
        replaced(s, '\\', '/')
    } else {
        s
    }
}

/// The path `s` as the host `os` writes it: on Windows every `/` is a
/// `\`, elsewhere the path itself.
pub open spec fn host_form(s: Seq<char>, os: HostOs) -> Seq<char> {
    if os == HostOs::Windows {
        replaced(s, '/', '\\')
    } else {
        s
    }
}

/// A path that may be absent, as the host `os` writes it.
pub open spec fn opt_host_form(s: Option<Seq<char>>, os: HostOs) -> Option<Seq<char>> {
    match s {
        Some(s) => Some(host_form(s, os)),
        None => None,
    }
}

/// A path in slash form holds no `\` on Windows, and is its own slash
/// form; the form of the host and back is the slash form again.
pub proof fn law_forms_agree(s: Seq<char>, os: HostOs)
    ensures
        posix_form(posix_form(s, os), os) == posix_form(s, os),
        posix_form(host_form(posix_form(s, os), os), os) == posix_form(s, os),
        os == HostOs::Windows ==> forall|i: int|
            0 <= i < s.len() ==> posix_form(s, os)[i] != '\\' && host_form(s, os)[i] != '/',
        os != HostOs::Windows ==> posix_form(s, os) == s && host_form(s, os) == s,
{
    assert(posix_form(posix_form(s, os), os) =~= posix_form(s, os));
    assert(posix_form(host_form(posix_form(s, os), os), os) =~= posix_form(s, os));
}

/// Replaces every `from` of `s` by `to`.
pub fn replace_chars(s: &Vec<char>, from: char, to: char) -> (out: Vec<char>)
    ensures
        out@ == replaced(s@, from, to),
{
    let mut out: Vec<char> = Vec::new();
    let mut i: usize = 0;
    while i < s.len()
        invariant
            i <= s.len(),
            out@ == replaced(s@, from, to).take(i as int),
        decreases s.len() - i,
    {
        let c = s[i];
        if c == from {
            out.push(to);
        } else {
            out.push(c);
        }
        proof {
            assert(replaced(s@, from, to).take(i + 1) =~= replaced(s@, from, to).take(
                i as int,
            ).push(replaced(s@, from, to)[i as int]));
        }
        i = i + 1;
    }
    assert(replaced(s@, from, to).take(s.len() as int) =~= replaced(s@, from, to));
    out
}

/// Brings the path `s` of the host `os` into slash form.
pub fn to_posix(s: &str, os: HostOs) -> (out: String)
    ensures
        out@ == posix_form(s@, os),
{
    match os {
        HostOs::Windows => {
            let chars = chars_of(s);
            string_of(&replace_chars(&chars, '\\', '/'))
        },
        _ => s.to_owned(),
    }
}

/// Writes the path `s` as the host `os` writes it.
pub fn to_host(s: &str, os: HostOs) -> (out: String)
    ensures
        out@ == host_form(s@, os),
{
    match os {
        HostOs::Windows => {
            let chars = chars_of(s);
            string_of(&replace_chars(&chars, '/', '\\'))
        },
        _ => s.to_owned(),
    }
}

/// Writes a path that may be absent as the host `os` writes it.
fn opt_to_host(s: Option<String>, os: HostOs) -> (out: Option<String>)
    ensures
        opt_text(out) == opt_host_form(opt_text(s), os),
{
    match s {
        Some(s) => Some(to_host(s.as_str(), os)),
        None => None,
    }
}

/// The path `rel` placed under the path `base` of the host `os`, as
/// the host writes it.
pub open spec fn join_on_spec(base: Seq<char>, rel: Seq<char>, os: HostOs) -> Seq<char> {
    host_form(join_spec(posix_form(base, os), posix_form(rel, os)), os)
}

/// Places the path `rel` under the path `base` of the host `os`.
pub fn join_on(base: &str, rel: &str, os: HostOs) -> (out: String)
    ensures
        out@ == join_on_spec(base@, rel@, os),
{
    let b = to_posix(base, os);
    let r = to_posix(rel, os);
    let joined = join_paths(b.as_str(), r.as_str());
    to_host(joined.as_str(), os)
}

/// Whether the path `p` of the host `os` lies at or below the path
/// `root`.
pub fn path_starts_with(p: &str, root: &str, os: HostOs) -> (r: bool)
    ensures
        r == starts_with_spec(posix_form(p@, os), posix_form(root@, os)),
{
    let a = to_posix(p, os);
    let b = to_posix(root, os);
    slash_starts_with(a.as_str(), b.as_str())
}

/// Whether `a` and `b` are the same path of the host `os`.
pub fn same_path(a: &str, b: &str, os: HostOs) -> (r: bool)
    ensures
        r == same_path_spec(posix_form(a@, os), posix_form(b@, os)),
{
    let x = to_posix(a, os);
    let y = to_posix(b, os);
    slash_same_path(x.as_str(), y.as_str())
}

/// The last component of the path `p` of the host `os`, unless there
/// is none or it is `..`.
pub fn file_name(p: &str, os: HostOs) -> (out: Option<String>)
    ensures
        opt_text(out) == file_name_spec(posix_form(p@, os)),
{
    let x = to_posix(p, os);
    slash_file_name(x.as_str())
}

/// Whether the path `s` in slash form begins with two separators, as
/// the slash form of a verbatim path of Windows and of a path on a
/// server does.
pub open spec fn double_rooted(s: Seq<char>) -> bool {
    s.len() >= 2 && s[0] == '/' && s[1] == '/'
}

/// The path `p` of the host `os` without its last component, as the
/// host writes it; `None` where `p` has no component. On Windows the
/// two separators at the start of a path are kept.
pub open spec fn host_parent(p: Seq<char>, os: HostOs) -> Option<Seq<char>> {
    match parent_spec(posix_form(p, os)) {
        Some(rest) => Some(
            host_form(
                if os == HostOs::Windows && double_rooted(posix_form(p, os)) {
                    seq!['/'] + rest
                } else {
                    rest
                },
                os,
            ),
        ),
        None => None,
    }
}

/// The path `p` of the host `os` without its last component, as the
/// host writes it; `None` where `p` has no component.
pub fn parent_dir(p: &str, os: HostOs) -> (out: Option<String>)
    ensures
        opt_text(out) == host_parent(p@, os),
{
    let x = to_posix(p, os);
    let chars = chars_of(x.as_str());
    let doubled = match os {
        HostOs::Windows => chars.len() >= 2 && chars[0] == '/' && chars[1] == '/',
        _ => false,
    };
    match slash_parent_dir(x.as_str()) {
        Some(rest) => {
            if doubled {
                let mut kept = "/".to_owned();
                kept.append(rest.as_str());
                proof {
                    reveal_strlit("/");
                    assert("/"@ =~= seq!['/']);
                }
                Some(to_host(kept.as_str(), os))
            } else {
                Some(to_host(rest.as_str(), os))
            }
        },
        None => None,
    }
}

/// The path of the components of `p` that follow those of `base`, as
/// the host `os` writes it; `None` where `p` does not lie at or below
/// `base`.
pub fn relative_to(p: &str, base: &str, os: HostOs) -> (out: Option<String>)
    ensures
        out is Some == starts_with_spec(posix_form(p@, os), posix_form(base@, os)),
        out is Some ==> out->0@ == host_form(
            render(false, strip_prefix_spec(posix_form(p@, os), posix_form(base@, os))->0),
            os,
        ),
{
    let x = to_posix(p, os);
    let y = to_posix(base, os);
    opt_to_host(slash_relative_to(x.as_str(), y.as_str()), os)
}

/// The extension of the last component of the path `p` of the host
/// `os`.
pub fn extension(p: &str, os: HostOs) -> (out: Option<String>)
    ensures
        opt_text(out) == extension_spec(posix_form(p@, os)),
{
    let x = to_posix(p, os);
    slash_extension(x.as_str())
}

/// The last component of the path `p` of the host `os` without its
/// extension.
pub fn file_stem(p: &str, os: HostOs) -> (out: Option<String>)
    ensures
        opt_text(out) == file_stem_spec(posix_form(p@, os)),
{
    let x = to_posix(p, os);
    slash_file_stem(x.as_str())
}

} // verus!
