//! Remote (POSIX) and local path arithmetic used by the SFTP browser and the
//! transfer queue.

use vstd::prelude::*;
use crate::text::{
    cat, cat3, chars_of, eq_pred, find_char_from, first_index_of, last_index_of, lemma_last_index_of, lemma_lead_bound, lemma_trail_bound, rfind_char, same_text, substring, trail,
    trim, trim_by, trim_end_by, trim_end_char, trim_matches_char, trim_start_by, trim_start_char,
    trim_str,
};

verus! {

pub open spec fn slash() -> Seq<char> {
    seq!['/']
}

/// Parent directory of a remote path: `None` for the root, an empty path, or a
/// path without any separator.
pub open spec fn remote_parent_spec(path: Seq<char>) -> Option<Seq<char>> {
    let t = trim(path);
    if t.len() == 0 || t == slash() {
        None
    } else {
        let n = trim_end_by(t, eq_pred('/'));
        let i = last_index_of(n, '/');
        if i < 0 {
            None
        } else if i == 0 {
            Some(slash())
        } else {
            Some(n.take(i))
        }
    }
}

/// `parent` joined with `name`, keeping exactly one separator between them.
pub open spec fn remote_child_spec(parent: Seq<char>, name: Seq<char>) -> Seq<char> {
    if parent == slash() {
        slash() + trim_start_by(name, eq_pred('/'))
    } else {
        trim_end_by(parent, eq_pred('/')) + slash() + name
    }
}

/// An absolute directory path without surrounding blanks or trailing separators.
pub open spec fn normalize_remote_dir_spec(path: Seq<char>) -> Seq<char> {
    let t = trim(path);
    if t.len() == 0 || t == slash() {
        slash()
    } else {
        slash() + trim_by(t, eq_pred('/'))
    }
}

/// `base` joined with `name` the way `Path::join` does on Unix: an absolute
/// `name` replaces `base`.
pub open spec fn local_join_spec(base: Seq<char>, name: Seq<char>) -> Seq<char> {
    if name.len() > 0 && name[0] == '/' {
        name
    } else if base.len() == 0 || base.last() == '/' {
        base + name
    } else {
        base + slash() + name
    }
}

/// The text after the last `/` of a remote path.
pub open spec fn last_segment(path: Seq<char>) -> Seq<char> {
    path.skip(last_index_of(path, '/') + 1)
}

/// A parent is shorter than the path it is the parent of.
pub proof fn lemma_parent_is_shorter(path: Seq<char>)
    ensures
        remote_parent_spec(path) matches Some(p) ==> p.len() < path.len(),
{
    let t = trim(path);
    lemma_lead_bound(path, crate::text::ws_pred());
    let st = crate::text::trim_start_by(path, crate::text::ws_pred());
    lemma_trail_bound(st, crate::text::ws_pred());
    assert(t.len() <= path.len());
    if t.len() > 0 && t != slash() {
        let n = trim_end_by(t, eq_pred('/'));
        lemma_trail_bound(t, eq_pred('/'));
        lemma_last_index_of(n, '/');
        let i = last_index_of(n, '/');
        if i == 0 && n.len() == 1 {
            assert(n[0] == '/');
            assert(n.len() == t.len() - trail(t, eq_pred('/')));
            if trail(t, eq_pred('/')) < t.len() {
                assert(!eq_pred('/')(t[t.len() - trail(t, eq_pred('/')) - 1]));
                assert(n[0] == t[0]);
            }
        }
    }
}

pub fn remote_parent_path(path: &str) -> (r: Option<String>)
    ensures
        match r {
            Some(p) => remote_parent_spec(path@) == Some(p@),
            None => remote_parent_spec(path@).is_none(),
        },
{
    let t = trim_str(path);
    let root = String::from_str("/");
    proof { reveal_strlit("/"); }
    assert(root@ =~= slash());
    if t.unicode_len() == 0 || t == root {
        return None;
    }
    let n = trim_end_char(t.as_str(), '/');
    let v = chars_of(n.as_str());
    match rfind_char(&v, '/') {
        None => None,
        Some(i) => {
            if i == 0 {
                Some(root)
            } else {
                let p = substring(n.as_str(), 0, i);
                assert(p@ =~= n@.take(i as int));
                Some(p)
            }
        },
    }
}

pub fn remote_child_path(parent: &str, name: &str) -> (r: String)
    ensures
        r@ == remote_child_spec(parent@, name@),
{
    proof { reveal_strlit("/"); }
    assert("/"@ =~= slash());
    if same_text(parent, "/") {
        let rest = trim_start_char(name, '/');
        cat("/", rest.as_str())
    } else {
        let head = trim_end_char(parent, '/');
        cat3(head.as_str(), "/", name)
    }
}

pub fn normalize_remote_dir(path: &str) -> (r: String)
    ensures
        r@ == normalize_remote_dir_spec(path@),
{
    proof { reveal_strlit("/"); }
    assert("/"@ =~= slash());
    let t = trim_str(path);
    if t.unicode_len() == 0 || same_text(t.as_str(), "/") {
        return String::from_str("/");
    }
    let inner = trim_matches_char(t.as_str(), '/');
    cat("/", inner.as_str())
}

/// Whether two remote paths name the same directory once normalised.
pub fn same_remote_dir(left: &str, right: &str) -> (r: bool)
    ensures
        r == (normalize_remote_dir_spec(left@) == normalize_remote_dir_spec(right@)),
{
    let a = normalize_remote_dir(left);
    let b = normalize_remote_dir(right);
    a == b
}

pub fn local_join(base: &str, name: &str) -> (r: String)
    ensures
        r@ == local_join_spec(base@, name@),
{
    let w = chars_of(name);
    if w.len() > 0 && w[0] == '/' {
        return String::from_str(name);
    }
    let v = chars_of(base);
    if v.len() == 0 || v[v.len() - 1] == '/' {
        cat(base, name)
    } else {
        proof { reveal_strlit("/"); }
        cat3(base, "/", name)
    }
}

/// The text after the last `/` of `path`.
pub fn last_segment_of(path: &str) -> (r: String)
    ensures
        r@ == last_segment(path@),
{
    let v = chars_of(path);
    proof { lemma_last_index_of(v@, '/'); }
    match rfind_char(&v, '/') {
        Some(i) => {
            assert(i < v.len());
            substring(path, i + 1, v.len())
        },
        None => {
            let r = substring(path, 0, v.len());
            assert(r@ =~= path@.skip(0));
            r
        },
    }
}

/// Local download target for a remote path: the remote base name (or
/// `downloaded-file` when it is empty) joined onto `local_root`.
pub open spec fn local_download_path_spec(local_root: Seq<char>, remote_path: Seq<char>) -> Seq<char> {
    let name = last_segment(remote_path);
    local_join_spec(local_root, if name.len() == 0 { "downloaded-file"@ } else { name })
}

pub fn build_local_download_path(local_root: &str, remote_path: &str) -> (r: String)
    ensures
        r@ == local_download_path_spec(local_root@, remote_path@),
{
    let name = last_segment_of(remote_path);
    if name.unicode_len() == 0 {
        local_join(local_root, "downloaded-file")
    } else {
        local_join(local_root, name.as_str())
    }
}

/// The temporary name an upload is written under before it is renamed.
pub fn remote_upload_part_path(target_path: &str) -> (r: String)
    ensures
        r@ == target_path@ + ".part"@,
{
    cat(target_path, ".part")
}


pub open spec fn replace_char(s: Seq<char>, from: char, to: char) -> Seq<char> {
    s.map_values(|c: char| if c == from { to } else { c })
}

/// A path component other than an empty one, `.` or `..`.
pub open spec fn is_normal_component(seg: Seq<char>) -> bool {
    seg.len() > 0 && seg != "."@ && seg != ".."@
}

pub open spec fn keep_component(seg: Seq<char>) -> Seq<Seq<char>> {
    if is_normal_component(seg) {
        seq![replace_char(seg, '\\', '/')]
    } else {
        Seq::empty()
    }
}

/// The normal components of a relative path, with `\\` turned into `/`.
#[verifier::opaque]
pub open spec fn normal_components(s: Seq<char>) -> Seq<Seq<char>>
    decreases s.len(),
{
    let i = first_index_of(s, '/');
    if i < 0 || i >= s.len() {
        keep_component(s)
    } else {
        keep_component(s.take(i)) + normal_components(s.skip(i + 1))
    }
}

/// The segments joined with single `/` separators.
#[verifier::opaque]
pub open spec fn join_slash(segs: Seq<Seq<char>>) -> Seq<char>
    decreases segs.len(),
{
    if segs.len() == 0 {
        Seq::empty()
    } else if segs.len() == 1 {
        segs[0]
    } else {
        join_slash(segs.drop_last()) + slash() + segs.last()
    }
}

/// Remote target of an upload whose local path relative to the selection root
/// is `relative_path`.
pub open spec fn remote_upload_path_spec(target_dir: Seq<char>, relative_path: Seq<char>) -> Seq<char> {
    let suffix = join_slash(normal_components(relative_path));
    let prefix = normalize_remote_dir_spec(target_dir);
    if suffix.len() == 0 {
        prefix
    } else if prefix == slash() {
        slash() + trim_start_by(suffix, eq_pred('/'))
    } else {
        trim_end_by(prefix, eq_pred('/')) + slash() + trim_start_by(suffix, eq_pred('/'))
    }
}

/// `s` with every backslash replaced by a slash.
pub fn replace_backslashes(s: &str) -> (r: String)
    ensures
        r@ == replace_char(s@, '\\', '/'),
{
    proof { reveal_strlit("/"); }
    assert("/"@ =~= seq!['/']);
    let v = chars_of(s);
    let mut r = String::new();
    let mut i: usize = 0;
    while i < v.len()
        invariant
            i <= v.len(),
            v@ == s@,
            "/"@ == seq!['/'],
            r@ == replace_char(s@.take(i as int), '\\', '/'),
        decreases v.len() - i,
    {
        let ghost before = r@;
        let c = v[i];
        if c == '\\' {
            r.append("/");
        } else {
            let one = s.substring_char(i, i + 1);
            assert(one@ =~= seq![c]);
            r.append(one);
        }
        assert(r@ =~= before.push(if c == '\\' { '/' } else { c }));
        assert(s@.take(i + 1) =~= s@.take(i as int).push(c));
        i = i + 1;
        assert(r@ =~= replace_char(s@.take(i as int), '\\', '/'));
    }
    assert(s@.take(v.len() as int) =~= s@);
    r
}

proof fn lemma_join_push(segs: Seq<Seq<char>>, seg: Seq<char>)
    ensures
        join_slash(segs.push(seg)) == if segs.len() == 0 { seg } else { join_slash(segs) + slash() + seg },
{
    reveal(join_slash);
    assert(segs.push(seg).drop_last() =~= segs);
}

/// Cuts the next component of `relative_path` starting at `pos`.
fn split_component(relative_path: &str, v: &Vec<char>, pos: usize) -> (res: (String, usize, bool))
    requires
        v@ == relative_path@,
        pos <= v.len(),
    ensures
        res.1 <= v.len(),
        res.2 ==> res.1 == v.len() && normal_components(relative_path@.skip(pos as int)) == keep_component(res.0@),
        !res.2 ==> res.1 > pos && normal_components(relative_path@.skip(pos as int))
            == keep_component(res.0@) + normal_components(relative_path@.skip(res.1 as int)),
{
    let ghost s = relative_path@;
    let ghost rest = s.skip(pos as int);
    reveal(normal_components);
    match find_char_from(v, pos, '/') {
        Some(i) => {
            let seg = substring(relative_path, pos, pos + i);
            assert(seg@ =~= rest.take(i as int));
            assert(rest.skip(i + 1) =~= s.skip(pos + i + 1));
            (seg, pos + i + 1, false)
        },
        None => {
            let seg = substring(relative_path, pos, v.len());
            assert(seg@ =~= rest);
            (seg, v.len(), true)
        },
    }
}

fn is_normal_segment(seg: &str) -> (r: bool)
    ensures
        r == is_normal_component(seg@),
{
    seg.unicode_len() > 0 && !same_text(seg, ".") && !same_text(seg, "..")
}

/// The normal components of `relative_path` joined with `/`.
fn joined_components(relative_path: &str) -> (r: String)
    ensures
        r@ == join_slash(normal_components(relative_path@)),
{
    proof { reveal_strlit("/"); }
    let v = chars_of(relative_path);
    let ghost s = relative_path@;
    let ghost mut acc: Seq<Seq<char>> = Seq::empty();
    let mut suffix = String::new();
    let mut pos: usize = 0;
    let mut done = false;
    let mut have_any = false;
    assert(s.skip(0) =~= s);
    assert(acc + normal_components(s) =~= normal_components(s));
    assert(join_slash(acc) == Seq::<char>::empty()) by { reveal(join_slash); }
    assert("/"@ =~= slash());
    while !done
        invariant
            have_any == (acc.len() > 0),
            v@ == s,
            s == relative_path@,
            pos <= v.len(),
            done ==> normal_components(s) == acc,
            !done ==> normal_components(s) == acc + normal_components(s.skip(pos as int)),
            suffix@ == join_slash(acc),
            "/"@ == slash(),
        decreases v.len() - pos + (if done { 0int } else { 1int }),
    {
        let (seg, next, last) = split_component(relative_path, &v, pos);
        let ghost old_acc = acc;
        let normal = is_normal_segment(seg.as_str());
        if normal {
            let piece = replace_backslashes(seg.as_str());
            proof { lemma_join_push(acc, piece@); }
            let ghost before = suffix@;
            assert(acc.len() == 0 ==> join_slash(acc) == Seq::<char>::empty()) by { reveal(join_slash); }
            if have_any {
                suffix.append("/");
            }
            suffix.append(piece.as_str());
            assert(suffix@ =~= (if acc.len() == 0 { piece@ } else { before + slash() + piece@ }));
            assert(suffix@ == join_slash(acc.push(piece@)));
            proof {
                acc = acc.push(piece@);
                assert(keep_component(seg@) =~= seq![piece@]);
            }
        }
        proof {
            assert(acc =~= old_acc + keep_component(seg@));
        }
        have_any = have_any || normal;
        pos = next;
        done = last;
    }
    suffix
}

pub fn build_remote_upload_path(target_dir: &str, relative_path: &str) -> (r: String)
    ensures
        r@ == remote_upload_path_spec(target_dir@, relative_path@),
{
    proof { reveal_strlit("/"); }
    assert("/"@ =~= slash());
    let suffix = joined_components(relative_path);
    let prefix = normalize_remote_dir(target_dir);
    if suffix.unicode_len() == 0 {
        return prefix;
    }
    let tail = trim_start_char(suffix.as_str(), '/');
    if same_text(prefix.as_str(), "/") {
        cat("/", tail.as_str())
    } else {
        let head = trim_end_char(prefix.as_str(), '/');
        cat3(head.as_str(), "/", tail.as_str())
    }
}

} // verus!
