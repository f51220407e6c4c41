//! The directories and executables the loader works with: the Larian local
//! data folder, the game's local folder, the plugins folder with its logs
//! folder, and the game's two executables.
//!
//! Paths are Windows path strings. Whether a path exists, creating a
//! directory and resolving a path to its canonical form are file-system
//! operations that the caller performs through the probes it passes in.
use vstd::prelude::*;

use crate::config::Config;
use crate::text::{ascii_lower, has_prefix, lower, push_char, push_str, starts_with, str_eq, suffix_from};

verus! {

/// A Windows path separator.
pub open spec fn is_separator(c: char) -> bool {
    c == '\\' || c == '/'
}

/// A bare drive such as `C:`, onto which a relative component is joined
/// without separator.
pub open spec fn is_bare_drive(p: Seq<char>) -> bool {
    p.len() == 2 && p[1] == ':' && (('a' <= p[0] && p[0] <= 'z') || ('A' <= p[0] && p[0] <= 'Z'))
}

/// A relative component `comp` joined onto the directory `base`: a
/// backslash goes between them unless `base` is empty, a bare drive, or
/// already ends in a separator.
pub open spec fn join(base: Seq<char>, comp: Seq<char>) -> Seq<char> {
    if base.len() == 0 || is_separator(base.last()) || is_bare_drive(base) {
        base + comp
    } else {
        base + seq!['\\'] + comp
    }
}

/// Joins the relative component `comp` onto `base`.
pub fn join_path(base: &str, comp: &str) -> (p: String)
    ensures
        p@ == join(base@, comp@),
{
    let n = base.unicode_len();
    let mut p = base.to_owned();
    let needs_sep = if n == 0 {
        false
    } else {
        let last = base.get_char(n - 1);
        if last == '\\' || last == '/' {
            false
        } else if n == 2 {
            let c = base.get_char(0);
            !(base.get_char(1) == ':' && (('a' <= c && c <= 'z') || ('A' <= c && c <= 'Z')))
        } else {
            true
        }
    };
    if needs_sep {
        push_str(&mut p, "\\");
        proof {
            reveal_strlit("\\");
        }
    }
    push_str(&mut p, comp);
    proof {
        if n > 0 {
            assert(base@.last() == base@[n - 1]);
        }
    }
    p
}

/// Joining keeps the base as a prefix and puts the component at the end,
/// with at most one separator added between them.
pub proof fn lemma_join_keeps_parts(base: Seq<char>, comp: Seq<char>)
    ensures
        has_prefix(join(base, comp), base),
        join(base, comp).subrange(join(base, comp).len() - comp.len(), join(base, comp).len() as int) == comp,
        join(base, comp).len() == base.len() + comp.len() || join(base, comp).len() == base.len() + comp.len() + 1,
{
    let j = join(base, comp);
    assert(j.subrange(0, base.len() as int) =~= base);
    assert(j.subrange(j.len() - comp.len(), j.len() as int) =~= comp);
}

/// Whether a path starts at a root: its first character is a separator.
pub open spec fn rooted(p: Seq<char>) -> bool {
    p.len() > 0 && is_separator(p[0])
}

/// The components `parts` after the finished piece `piece`: an empty piece
/// (from a repeated or trailing separator) does not count, nor does a `.`
/// other than the first component of a relative path.
pub open spec fn keep_piece(parts: Seq<Seq<char>>, piece: Seq<char>, is_rooted: bool) -> Seq<Seq<char>> {
    if piece.len() == 0 || (piece == seq!['.'] && (parts.len() > 0 || is_rooted)) {
        parts
    } else {
        parts.push(piece)
    }
}

/// The components finished among the first `n` characters of `p`, and the
/// piece still open after them.
pub open spec fn scan_parts(p: Seq<char>, n: nat) -> (Seq<Seq<char>>, Seq<char>)
    decreases n,
{
    if n == 0 || n > p.len() {
        (Seq::empty(), Seq::empty())
    } else {
        let prev = scan_parts(p, (n - 1) as nat);
        let c = p[n - 1];
        if is_separator(c) {
            (keep_piece(prev.0, prev.1, rooted(p)), Seq::empty())
        } else {
            (prev.0, prev.1.push(c))
        }
    }
}

/// The components of a Windows path: the pieces between its separators
/// (`\` or `/`), without empty pieces and `.` pieces as `keep_piece` says.
pub open spec fn path_parts(p: Seq<char>) -> Seq<Seq<char>> {
    let end = scan_parts(p, p.len());
    keep_piece(end.0, end.1, rooted(p))
}

/// The drive a path starts with (`C:`), its letter in lowercase.
pub open spec fn drive_of(p: Seq<char>) -> Option<char> {
    if p.len() >= 2 && p[1] == ':' && (('a' <= p[0] && p[0] <= 'z') || ('A' <= p[0] && p[0] <= 'Z')) {
        Some(ascii_lower(p[0]))
    } else {
        None
    }
}

/// Whether a path starts with two separators, as a network path does.
pub open spec fn is_unc(p: Seq<char>) -> bool {
    p.len() >= 2 && is_separator(p[0]) && is_separator(p[1])
}

/// The length of a path's prefix: a drive or the two separators of a
/// network path.
pub open spec fn prefix_len(p: Seq<char>) -> int {
    if drive_of(p) is Some || is_unc(p) { 2 } else { 0 }
}

/// A path after its prefix.
pub open spec fn path_rest(p: Seq<char>) -> Seq<char> {
    p.subrange(prefix_len(p), p.len() as int)
}

/// Two paths name the same file when they have the same prefix (a drive
/// letter compared without case, or both or neither network paths), both
/// or neither start at a root after it, and their components are equal:
/// the kind of separator, repeated separators and `.` components do not
/// matter. `C:` and `C:\` differ, as a drive's current folder differs from
/// its root.
pub open spec fn same_path(a: Seq<char>, b: Seq<char>) -> bool {
    &&& drive_of(a) == drive_of(b)
    &&& is_unc(a) == is_unc(b)
    &&& rooted(path_rest(a)) == rooted(path_rest(b))
    &&& path_parts(path_rest(a)) == path_parts(path_rest(b))
}

fn is_separator_char(c: char) -> (r: bool)
    ensures
        r == is_separator(c),
{
    c == '\\' || c == '/'
}

/// The drive, network-path flag and prefix length of a path.
fn path_prefix(p: &str) -> (r: (Option<char>, bool, usize))
    ensures
        r.0 == drive_of(p@),
        r.1 == is_unc(p@),
        r.2 == prefix_len(p@),
{
    let n = p.unicode_len();
    if n < 2 {
        return (None, false, 0);
    }
    let c0 = p.get_char(0);
    let c1 = p.get_char(1);
    if c1 == ':' && (('a' <= c0 && c0 <= 'z') || ('A' <= c0 && c0 <= 'Z')) {
        (Some(lower(c0)), false, 2)
    } else if is_separator_char(c0) && is_separator_char(c1) {
        (None, true, 2)
    } else {
        (None, false, 0)
    }
}

fn keep_piece_exec(parts: &mut Vec<String>, piece: String, is_rooted: bool)
    ensures
        final(parts)@.map_values(|q: String| q@) == keep_piece(old(parts)@.map_values(|q: String| q@), piece@, is_rooted),
{
    let n = piece.unicode_len();
    let is_dot = n == 1 && piece.as_str().get_char(0) == '.';
    proof {
        if n == 1 {
            if piece@[0] == '.' {
                assert(piece@ =~= seq!['.']);
            }
        }
    }
    if n == 0 || (is_dot && (parts.len() > 0 || is_rooted)) {
        return;
    }
    let ghost before = parts@;
    parts.push(piece);
    proof {
        assert(parts@.map_values(|q: String| q@) =~= before.map_values(|q: String| q@).push(parts@.last()@));
    }
}

/// The components of the path `p`.
pub fn path_components(p: &str) -> (parts: Vec<String>)
    ensures
        parts@.map_values(|q: String| q@) == path_parts(p@),
{
    let n = p.unicode_len();
    let is_rooted = n > 0 && {
        let c = p.get_char(0);
        c == '\\' || c == '/'
    };
    let mut parts: Vec<String> = Vec::new();
    let mut piece = String::new();
    let mut i: usize = 0;
    proof {
        assert(parts@.map_values(|q: String| q@) =~= Seq::<Seq<char>>::empty());
    }
    while i < n
        invariant
            n == p@.len(),
            i <= n,
            is_rooted == rooted(p@),
            parts@.map_values(|q: String| q@) == scan_parts(p@, i as nat).0,
            piece@ == scan_parts(p@, i as nat).1,
        decreases n - i,
    {
        let c = p.get_char(i);
        if c == '\\' || c == '/' {
            let done = piece;
            piece = String::new();
            keep_piece_exec(&mut parts, done, is_rooted);
        } else {
            push_char(&mut piece, c);
        }
        i = i + 1;
    }
    keep_piece_exec(&mut parts, piece, is_rooted);
    parts
}

/// Components written one after the other, each after a backslash.
pub open spec fn joined(parts: Seq<Seq<char>>) -> Seq<char>
    decreases parts.len(),
{
    if parts.len() == 0 {
        Seq::empty()
    } else {
        joined(parts.drop_last()) + seq!['\\'] + parts.last()
    }
}

/// A rest of a path in its plain form: it starts at the root, uses only
/// backslashes, and every backslash is followed by a component that is
/// neither empty nor `.`.
pub open spec fn plain_rest(r: Seq<char>) -> bool {
    &&& r.len() >= 1
    &&& r[0] == '\\'
    &&& forall|i: int| 0 <= i < r.len() ==> #[trigger] r[i] != '/'
    &&& forall|i: int| 0 <= i < r.len() && #[trigger] r[i] == '\\' ==> i + 1 < r.len() && r[i + 1] != '\\'
        && !(r[i + 1] == '.' && (i + 2 == r.len() || r[i + 2] == '\\'))
}

/// A path in its plain form: an uppercase drive letter, `:`, then a rest in
/// plain form, such as `C:\Games\BG3\bin\bg3.exe`.
pub open spec fn is_plain_path(p: Seq<char>) -> bool {
    &&& p.len() >= 3
    &&& 'A' <= p[0] && p[0] <= 'Z'
    &&& p[1] == ':'
    &&& plain_rest(p.subrange(2, p.len() as int))
}

proof fn lemma_scan_plain(r: Seq<char>, n: nat)
    requires
        plain_rest(r),
        1 <= n <= r.len(),
    ensures
        ({
            let s = scan_parts(r, n);
            &&& r.subrange(0, n as int) == joined(s.0) + seq!['\\'] + s.1
            &&& forall|k: int| 0 <= k < s.1.len() ==> !is_separator(#[trigger] s.1[k])
        }),
    decreases n,
{
    assert(rooted(r));
    if n == 1 {
        assert(scan_parts(r, 0) == (Seq::<Seq<char>>::empty(), Seq::<char>::empty()));
        assert(is_separator(r[0]));
        assert(keep_piece(Seq::<Seq<char>>::empty(), Seq::<char>::empty(), true) == Seq::<Seq<char>>::empty());
        assert(r.subrange(0, 1) =~= joined(Seq::<Seq<char>>::empty()) + seq!['\\'] + Seq::<char>::empty());
    } else {
        lemma_scan_plain(r, (n - 1) as nat);
        let prev = scan_parts(r, (n - 1) as nat);
        let ps = prev.0;
        let cur = prev.1;
        let c = r[n - 1];
        let head = r.subrange(0, n - 1);
        assert(head == joined(ps) + seq!['\\'] + cur);
        let lj = joined(ps).len();
        assert(head.len() == n - 1);
        assert(r.subrange(0, n as int) =~= head.push(c));
        if is_separator(c) {
            assert(c == '\\');
            if cur.len() == 0 {
                assert(head[n - 2] == '\\');
                assert(r[n - 2] == head[n - 2]);
                assert(r[n - 2] == '\\');
                assert(false);
            }
            if cur == seq!['.'] {
                assert(head[n - 2] == '.');
                assert(head[n - 3] == '\\');
                assert(r[n - 2] == head[n - 2]);
                assert(r[n - 3] == head[n - 3]);
                assert(r[n - 3] == '\\');
                assert(false);
            }
            let ps2 = ps.push(cur);
            assert(keep_piece(ps, cur, true) == ps2);
            assert(ps2.drop_last() =~= ps);
            assert(joined(ps2) == joined(ps) + seq!['\\'] + cur);
            assert(r.subrange(0, n as int) =~= joined(ps2) + seq!['\\'] + Seq::<char>::empty());
        } else {
            assert(r.subrange(0, n as int) =~= joined(ps) + seq!['\\'] + cur.push(c));
            assert forall|k: int| 0 <= k < cur.push(c).len() implies !is_separator(#[trigger] cur.push(c)[k]) by {
                if k < cur.len() {
                    assert(cur.push(c)[k] == cur[k]);
                }
            }
        }
    }
}

/// Reading the components of a rest in plain form and writing them back,
/// each after a backslash, gives the rest again.
pub proof fn lemma_plain_rest_parts(r: Seq<char>)
    requires
        plain_rest(r),
    ensures
        joined(path_parts(r)) == r,
{
    let n = r.len();
    lemma_scan_plain(r, n);
    let s = scan_parts(r, n);
    let ps = s.0;
    let cur = s.1;
    assert(r.subrange(0, n as int) =~= r);
    assert(r == joined(ps) + seq!['\\'] + cur);
    assert(rooted(r));
    if cur.len() == 0 {
        assert(r[n - 1] == '\\');
        assert(false);
    }
    if cur == seq!['.'] {
        assert(r[n - 1] == '.');
        assert(r[n - 2] == '\\');
        assert(false);
    }
    let ps2 = ps.push(cur);
    assert(path_parts(r) == ps2);
    assert(ps2.drop_last() =~= ps);
}

/// Two paths in plain form name the same file only when they are the same
/// text: every component, the drive and the root must agree, so no two
/// different folders or files are taken for each other.
pub proof fn lemma_same_plain_paths_are_equal(a: Seq<char>, b: Seq<char>)
    requires
        is_plain_path(a),
        is_plain_path(b),
        same_path(a, b),
    ensures
        a == b,
{
    assert(drive_of(a) == Some(ascii_lower(a[0])));
    assert(drive_of(b) == Some(ascii_lower(b[0])));
    assert(a[0] == b[0]);
    assert(path_rest(a) == a.subrange(2, a.len() as int));
    assert(path_rest(b) == b.subrange(2, b.len() as int));
    lemma_plain_rest_parts(path_rest(a));
    lemma_plain_rest_parts(path_rest(b));
    assert(path_rest(a) == path_rest(b));
    assert(a =~= seq![a[0], a[1]] + path_rest(a));
    assert(b =~= seq![b[0], b[1]] + path_rest(b));
}

/// Every path names the same file as itself, and naming the same file does
/// not depend on the order of the two paths.
pub proof fn lemma_same_path_reflexive_symmetric(a: Seq<char>, b: Seq<char>)
    ensures
        same_path(a, a),
        same_path(a, b) == same_path(b, a),
{
}

proof fn lemma_scan_same_shape(a: Seq<char>, b: Seq<char>, n: nat)
    requires
        a.len() == b.len(),
        n <= a.len(),
        forall|i: int| 0 <= i < a.len() ==> #[trigger] a[i] == b[i] || (is_separator(a[i]) && is_separator(b[i])),
    ensures
        scan_parts(a, n) == scan_parts(b, n),
    decreases n,
{
    if a.len() > 0 {
        assert(a[0] == b[0] || (is_separator(a[0]) && is_separator(b[0])));
    }
    assert(rooted(a) == rooted(b));
    if n > 0 {
        lemma_scan_same_shape(a, b, (n - 1) as nat);
        assert(a[n - 1] == b[n - 1] || (is_separator(a[n - 1]) && is_separator(b[n - 1])));
    }
}

/// Which separator is written, `\` or `/`, does not matter: two paths that
/// agree in every character except that one has `/` where the other has
/// `\` (or the other way round) name the same file.
pub proof fn lemma_separator_kind_irrelevant(a: Seq<char>, b: Seq<char>)
    requires
        a.len() == b.len(),
        forall|i: int| 0 <= i < a.len() ==> #[trigger] a[i] == b[i] || (is_separator(a[i]) && is_separator(b[i])),
    ensures
        same_path(a, b),
{
    if a.len() >= 2 {
        assert(a[0] == b[0] || (is_separator(a[0]) && is_separator(b[0])));
        assert(a[1] == b[1] || (is_separator(a[1]) && is_separator(b[1])));
    }
    assert(drive_of(a) == drive_of(b));
    assert(is_unc(a) == is_unc(b));
    assert(prefix_len(a) == prefix_len(b));
    let ra = path_rest(a);
    let rb = path_rest(b);
    let k = prefix_len(a);
    assert forall|i: int| 0 <= i < ra.len() implies #[trigger] ra[i] == rb[i] || (is_separator(ra[i]) && is_separator(rb[i])) by {
        assert(ra[i] == a[i + k]);
        assert(rb[i] == b[i + k]);
        assert(a[i + k] == b[i + k] || (is_separator(a[i + k]) && is_separator(b[i + k])));
    }
    lemma_scan_same_shape(ra, rb, ra.len());
    if ra.len() > 0 {
        assert(ra[0] == rb[0] || (is_separator(ra[0]) && is_separator(rb[0])));
    }
}

/// Whether two paths name the same file in the sense of `same_path`.
pub fn paths_equal(a: &str, b: &str) -> (r: bool)
    ensures
        r == same_path(a@, b@),
{
    let (da, ua, ka) = path_prefix(a);
    let (db, ub, kb) = path_prefix(b);
    if da != db || ua != ub {
        return false;
    }
    let rest_a = suffix_from(a, ka);
    let rest_b = suffix_from(b, kb);
    assert(rest_a@ == path_rest(a@));
    assert(rest_b@ == path_rest(b@));
    let ra = rest_a.unicode_len() > 0 && is_separator_char(rest_a.as_str().get_char(0));
    let rb = rest_b.unicode_len() > 0 && is_separator_char(rest_b.as_str().get_char(0));
    assert(ra == rooted(rest_a@));
    assert(rb == rooted(rest_b@));
    if ra != rb {
        return false;
    }
    let pa = path_components(rest_a.as_str());
    let pb = path_components(rest_b.as_str());
    let ghost va = pa@.map_values(|q: String| q@);
    let ghost vb = pb@.map_values(|q: String| q@);
    if pa.len() != pb.len() {
        assert(va.len() != vb.len());
        return false;
    }
    let mut i: usize = 0;
    while i < pa.len()
        invariant
            pa@.len() == pb@.len(),
            i <= pa@.len(),
            va == pa@.map_values(|q: String| q@),
            vb == pb@.map_values(|q: String| q@),
            va == path_parts(path_rest(a@)),
            vb == path_parts(path_rest(b@)),
            forall|j: int| 0 <= j < i ==> va[j] == vb[j],
        decreases pa@.len() - i,
    {
        if !str_eq(pa[i].as_str(), pb[i].as_str()) {
            assert(va[i as int] != vb[i as int]);
            return false;
        }
        i = i + 1;
    }
    assert(va =~= vb);
    true
}

/// Stripping the verbatim prefix and putting it back gives the path again.
pub proof fn lemma_strip_verbatim_undone(p: Seq<char>)
    requires
        has_prefix(p, verbatim_prefix()),
    ensures
        verbatim_prefix() + strip_verbatim(p) == p,
{
    reveal_strlit("\\\\?\\");
    assert(verbatim_prefix() + strip_verbatim(p) =~= p);
}

/// The Larian Studios folder inside a local application data folder.
pub open spec fn larian_dir(local: Seq<char>) -> Seq<char> {
    join(local, "Larian Studios"@)
}

/// The game's folder inside the Larian Studios folder.
pub open spec fn bg3_dir(larian: Seq<char>) -> Seq<char> {
    join(larian, "Baldur's Gate 3"@)
}

/// The plugins folder inside the game's local folder.
pub open spec fn plugins_dir(bg3: Seq<char>) -> Seq<char> {
    join(bg3, "Plugins"@)
}

/// The logs folder inside the plugins folder.
pub open spec fn logs_dir(plugins: Seq<char>) -> Seq<char> {
    join(plugins, "logs"@)
}

/// Why a folder could not be found or made.
#[derive(Debug, PartialEq, Eq, Clone)]
pub enum PathsError {
    /// The user's standard folders could not be determined.
    NoBaseDirs,
    /// The Larian Studios local folder does not exist.
    LarianDirMissing,
    /// The game's local folder does not exist.
    Bg3DirMissing,
    /// This folder could not be created.
    CreateDirFailed(String),
}

/// `directories::BaseDirs::data_local_dir`: the user's local application
/// data folder, when the user's standard folders can be determined. It
/// depends on the user and the machine, so nothing is claimed of it.
#[verifier::external_body]
fn local_data_dir() -> Option<String> {
    match directories::BaseDirs::new() {
        Some(dirs) => Some(dirs.data_local_dir().to_string_lossy().into_owned()),
        None => None,
    }
}

/// The probe `path_exists` answered `answer` for the path `p`.
pub open spec fn probed(path_exists: impl Fn(&String) -> bool, p: Seq<char>, answer: bool) -> bool {
    exists|s: String| #![trigger s.view()] s@ == p && path_exists.ensures((&s,), answer)
}

/// Every answer of the probe says the path exists.
pub open spec fn finds_all(path_exists: impl Fn(&String) -> bool) -> bool {
    forall|s: &String, b: bool| #[trigger] path_exists.ensures((s,), b) ==> b
}

/// `create_dir` answered `answer` when asked to create the folder `p`.
pub open spec fn made(create_dir: impl Fn(&String) -> bool, p: Seq<char>, answer: bool) -> bool {
    exists|s: String| #![trigger s.view()] s@ == p && create_dir.ensures((&s,), answer)
}

/// The Larian Studios folder inside the local data folder `local` (`None`
/// when the user's standard folders could not be determined), when the
/// probe `path_exists` finds it.
pub fn larian_dir_from(local: Option<String>, path_exists: &impl Fn(&String) -> bool) -> (r: Result<String, PathsError>)
    requires
        forall|p: &String| path_exists.requires((p,)),
    ensures
        local is None ==> r == Err::<String, PathsError>(PathsError::NoBaseDirs),
        local matches Some(l) ==> {
            &&& r matches Ok(p) ==> p@ == larian_dir(l@) && probed(*path_exists, larian_dir(l@), true)
            &&& r matches Err(e) ==> e == PathsError::LarianDirMissing && probed(*path_exists, larian_dir(l@), false)
        },
{
    let local = match local {
        Some(l) => l,
        None => { return Err(PathsError::NoBaseDirs); },
    };
    let larian = join_path(local.as_str(), "Larian Studios");
    if path_exists(&larian) {
        assert(probed(*path_exists, larian_dir(local@), true));
        Ok(larian)
    } else {
        assert(probed(*path_exists, larian_dir(local@), false));
        Err(PathsError::LarianDirMissing)
    }
}

/// The game's folder (`Larian Studios\Baldur's Gate 3`) inside the local
/// data folder `local`, when both folders are found: the Larian Studios
/// folder is probed first, the game's folder only when that one exists.
pub fn bg3_dir_from(local: Option<String>, path_exists: &impl Fn(&String) -> bool) -> (r: Result<String, PathsError>)
    requires
        forall|p: &String| path_exists.requires((p,)),
    ensures
        local is None ==> r == Err::<String, PathsError>(PathsError::NoBaseDirs),
        local matches Some(l) ==> {
            &&& r matches Ok(p) ==> p@ == bg3_dir(larian_dir(l@))
                && probed(*path_exists, larian_dir(l@), true) && probed(*path_exists, bg3_dir(larian_dir(l@)), true)
            &&& r matches Err(e) ==> e == PathsError::LarianDirMissing || e == PathsError::Bg3DirMissing
            &&& r matches Err(PathsError::LarianDirMissing) ==> probed(*path_exists, larian_dir(l@), false)
            &&& r matches Err(PathsError::Bg3DirMissing) ==> probed(*path_exists, larian_dir(l@), true)
                && probed(*path_exists, bg3_dir(larian_dir(l@)), false)
        },
{
    let ghost lv = local;
    let larian = larian_dir_from(local, path_exists)?;
    let dir = join_path(larian.as_str(), "Baldur's Gate 3");
    if path_exists(&dir) {
        assert(probed(*path_exists, dir@, true));
        Ok(dir)
    } else {
        assert(probed(*path_exists, dir@, false));
        Err(PathsError::Bg3DirMissing)
    }
}

/// The plugins folder inside the game's folder of the local data folder
/// `local`, created (with its logs folder) when missing; the flag tells
/// whether the plugins folder had to be created, that is whether this is
/// the first run. `create_dir` creates a folder and tells whether that
/// succeeded. Once every folder exists (as after a first run), the answer
/// is the plugins folder with the flag off.
pub fn plugins_dir_from(
    local: Option<String>,
    path_exists: &impl Fn(&String) -> bool,
    create_dir: &impl Fn(&String) -> bool,
) -> (r: Result<(bool, String), PathsError>)
    requires
        forall|p: &String| path_exists.requires((p,)),
        forall|p: &String| create_dir.requires((p,)),
    ensures
        local is None ==> r == Err::<(bool, String), PathsError>(PathsError::NoBaseDirs),
        local matches Some(l) ==> {
            let larian = larian_dir(l@);
            let bg3 = bg3_dir(larian);
            let plugins = plugins_dir(bg3);
            &&& r matches Ok((first_time, p)) ==> {
                &&& p@ == plugins
                &&& probed(*path_exists, larian, true)
                &&& probed(*path_exists, bg3, true)
                &&& first_time ==> probed(*path_exists, plugins, false) && made(*create_dir, plugins, true)
                &&& !first_time ==> probed(*path_exists, plugins, true)
                &&& probed(*path_exists, logs_dir(plugins), true)
                    || (probed(*path_exists, logs_dir(plugins), false) && made(*create_dir, logs_dir(plugins), true))
            }
            &&& r matches Err(e) ==> e is LarianDirMissing || e is Bg3DirMissing || e is CreateDirFailed
            &&& r matches Err(PathsError::LarianDirMissing) ==> probed(*path_exists, larian, false)
            &&& r matches Err(PathsError::Bg3DirMissing) ==> probed(*path_exists, larian, true)
                && probed(*path_exists, bg3, false)
            &&& r matches Err(PathsError::CreateDirFailed(d)) ==> {
                &&& probed(*path_exists, larian, true)
                &&& probed(*path_exists, bg3, true)
                &&& (d@ == plugins || (d@ == logs_dir(plugins) && (probed(*path_exists, plugins, true) || made(*create_dir, plugins, true))))
                &&& probed(*path_exists, d@, false)
                &&& create_dir.ensures((&d,), false)
            }
            &&& finds_all(*path_exists) ==> r matches Ok((false, _))
        },
{
    let dir = bg3_dir_from(local, path_exists)?;
    let plugins = join_path(dir.as_str(), "Plugins");
    let mut first_time = false;
    if !path_exists(&plugins) {
        assert(probed(*path_exists, plugins@, false));
        if !create_dir(&plugins) {
            return Err(PathsError::CreateDirFailed(plugins));
        }
        assert(made(*create_dir, plugins@, true));
        first_time = true;
    } else {
        assert(probed(*path_exists, plugins@, true));
    }
    let logs = join_path(plugins.as_str(), "logs");
    if !path_exists(&logs) {
        assert(probed(*path_exists, logs@, false));
        if !create_dir(&logs) {
            return Err(PathsError::CreateDirFailed(logs));
        }
        assert(made(*create_dir, logs@, true));
    } else {
        assert(probed(*path_exists, logs@, true));
    }
    Ok((first_time, plugins))
}

/// The Larian Studios folder in the user's local application data folder,
/// when it exists (`path_exists` tells whether a path exists). Which folder
/// is the local data folder depends on the environment; what is returned
/// for it is what `larian_dir_from` says.
pub fn get_larian_local_dir(path_exists: &impl Fn(&String) -> bool) -> (r: Result<String, PathsError>)
    requires
        forall|p: &String| path_exists.requires((p,)),
    ensures
        r matches Ok(p) ==> exists|local: Seq<char>| #![trigger larian_dir(local)]
            p@ == larian_dir(local) && probed(*path_exists, larian_dir(local), true),
        r matches Err(e) ==> e == PathsError::NoBaseDirs || e == PathsError::LarianDirMissing,
        r matches Err(PathsError::LarianDirMissing) ==> exists|local: Seq<char>| #![trigger larian_dir(local)]
            probed(*path_exists, larian_dir(local), false),
{
    let local = local_data_dir();
    let ghost lv = local;
    let r = larian_dir_from(local, path_exists);
    proof {
        if let Some(l) = lv {
            assert(larian_dir(l@) == larian_dir(l@));
        }
    }
    r
}

/// The game's local folder (`Larian Studios\Baldur's Gate 3` in the user's
/// local application data folder), when it exists; what is returned for
/// the local data folder is what `bg3_dir_from` says.
pub fn get_bg3_local_dir(path_exists: &impl Fn(&String) -> bool) -> (r: Result<String, PathsError>)
    requires
        forall|p: &String| path_exists.requires((p,)),
    ensures
        r matches Ok(p) ==> exists|local: Seq<char>| #![trigger larian_dir(local)] {
            &&& p@ == bg3_dir(larian_dir(local))
            &&& probed(*path_exists, larian_dir(local), true)
            &&& probed(*path_exists, bg3_dir(larian_dir(local)), true)
        },
        r matches Err(e) ==> e == PathsError::NoBaseDirs || e == PathsError::LarianDirMissing || e == PathsError::Bg3DirMissing,
        r matches Err(PathsError::LarianDirMissing) ==> exists|local: Seq<char>| #![trigger larian_dir(local)]
            probed(*path_exists, larian_dir(local), false),
        r matches Err(PathsError::Bg3DirMissing) ==> exists|local: Seq<char>| #![trigger larian_dir(local)] {
            &&& probed(*path_exists, larian_dir(local), true)
            &&& probed(*path_exists, bg3_dir(larian_dir(local)), false)
        },
{
    let local = local_data_dir();
    let ghost lv = local;
    let r = bg3_dir_from(local, path_exists);
    proof {
        if let Some(l) = lv {
            assert(larian_dir(l@) == larian_dir(l@));
        }
    }
    r
}

/// The plugins folder in the game's local folder, created (with its logs
/// folder) when missing; the flag tells whether the plugins folder had to be
/// created, that is whether this is the first run. What is returned for the
/// local data folder is what `plugins_dir_from` says.
pub fn get_bg3_plugins_dir(path_exists: &impl Fn(&String) -> bool, create_dir: &impl Fn(&String) -> bool) -> (r: Result<(bool, String), PathsError>)
    requires
        forall|p: &String| path_exists.requires((p,)),
        forall|p: &String| create_dir.requires((p,)),
    ensures
        r matches Ok((first_time, p)) ==> exists|local: Seq<char>| #![trigger larian_dir(local)] {
            &&& p@ == plugins_dir(bg3_dir(larian_dir(local)))
            &&& probed(*path_exists, larian_dir(local), true)
            &&& probed(*path_exists, bg3_dir(larian_dir(local)), true)
            &&& first_time ==> probed(*path_exists, p@, false) && made(*create_dir, p@, true)
            &&& !first_time ==> probed(*path_exists, p@, true)
            &&& probed(*path_exists, logs_dir(p@), true)
                || (probed(*path_exists, logs_dir(p@), false) && made(*create_dir, logs_dir(p@), true))
        },
        r matches Err(e) ==> e is NoBaseDirs || e is LarianDirMissing || e is Bg3DirMissing || e is CreateDirFailed,
        r matches Err(PathsError::LarianDirMissing) ==> exists|local: Seq<char>| #![trigger larian_dir(local)]
            probed(*path_exists, larian_dir(local), false),
        r matches Err(PathsError::Bg3DirMissing) ==> exists|local: Seq<char>| #![trigger larian_dir(local)] {
            &&& probed(*path_exists, larian_dir(local), true)
            &&& probed(*path_exists, bg3_dir(larian_dir(local)), false)
        },
        r matches Err(PathsError::CreateDirFailed(d)) ==> exists|local: Seq<char>| #![trigger larian_dir(local)] {
            let plugins = plugins_dir(bg3_dir(larian_dir(local)));
            &&& probed(*path_exists, larian_dir(local), true)
            &&& probed(*path_exists, bg3_dir(larian_dir(local)), true)
            &&& probed(*path_exists, d@, false)
            &&& create_dir.ensures((&d,), false)
            &&& (d@ == plugins || d@ == logs_dir(plugins))
        },
{
    let local = local_data_dir();
    let ghost lv = local;
    let r = plugins_dir_from(local, path_exists, create_dir);
    proof {
        if let Some(l) = lv {
            assert(larian_dir(l@) == larian_dir(l@));
        }
    }
    r
}

/// The prefix that canonicalizing a path adds on Windows.
pub open spec fn verbatim_prefix() -> Seq<char> {
    "\\\\?\\"@
}

/// A path with its verbatim prefix removed, when it has one.
pub open spec fn strip_verbatim(p: Seq<char>) -> Seq<char> {
    if has_prefix(p, verbatim_prefix()) {
        p.subrange(4, p.len() as int)
    } else {
        p
    }
}

/// Removes the verbatim prefix `\\?\` that canonicalizing adds, if present.
pub fn strip_verbatim_prefix(p: &str) -> (r: Option<String>)
    ensures
        has_prefix(p@, verbatim_prefix()) ==> (r matches Some(s) && s@ == p@.subrange(4, p@.len() as int)),
        !has_prefix(p@, verbatim_prefix()) ==> r is None,
{
    proof {
        reveal_strlit("\\\\?\\");
    }
    if starts_with(p, "\\\\?\\") {
        Some(suffix_from(p, 4))
    } else {
        None
    }
}

/// The full paths of the game's two executables.
#[derive(Debug, PartialEq, Eq, Clone)]
pub struct Bg3Exes {
    pub bg3: String,
    pub bg3_dx11: String,
}

/// The folders searched for the game's executables, in order: the current
/// folder, its parent, and the `bin` folder of the configured install root.
pub open spec fn binary_dirs(install_root: Seq<char>) -> Seq<Seq<char>> {
    seq!["."@, ".."@, join(install_root, "bin"@)]
}

/// The folders searched for the game's executables.
pub fn game_binary_dirs(config: &Config) -> (dirs: Vec<String>)
    ensures
        dirs@.map_values(|d: String| d@) == binary_dirs(config.install_root@),
{
    let mut dirs: Vec<String> = Vec::new();
    dirs.push(String::from_str("."));
    dirs.push(String::from_str(".."));
    dirs.push(join_path(config.install_root.as_str(), "bin"));
    assert(dirs@.map_values(|d: String| d@) =~= binary_dirs(config.install_root@));
    dirs
}

/// Whether `dir` yields the two executables: both are files, both resolve
/// to canonical paths `a` and `b`, and the result holds them without their
/// verbatim prefixes.
pub open spec fn yields_exes(
    is_file: impl Fn(&String) -> bool,
    canonicalize: impl Fn(&String) -> Option<String>,
    dir: Seq<char>,
    exes: Bg3Exes,
) -> bool {
    exists|p: String, q: String, a: String, b: String| {
        &&& p@ == join(dir, "bg3.exe"@)
        &&& q@ == join(dir, "bg3_dx11.exe"@)
        &&& is_file.ensures((&p,), true)
        &&& is_file.ensures((&q,), true)
        &&& canonicalize.ensures((&p,), Some(a))
        &&& canonicalize.ensures((&q,), Some(b))
        &&& exes.bg3@ == strip_verbatim(a@)
        &&& exes.bg3_dx11@ == strip_verbatim(b@)
    }
}

/// `dir` was seen not to yield the two executables: one of them was not a
/// file, or did not resolve to a canonical path.
pub open spec fn misses_exes(
    is_file: impl Fn(&String) -> bool,
    canonicalize: impl Fn(&String) -> Option<String>,
    dir: Seq<char>,
) -> bool {
    exists|p: String, q: String| #![trigger p.view(), q.view()] {
        &&& p@ == join(dir, "bg3.exe"@)
        &&& q@ == join(dir, "bg3_dx11.exe"@)
        &&& {
            ||| is_file.ensures((&p,), false)
            ||| is_file.ensures((&q,), false)
            ||| canonicalize.ensures((&p,), None)
            ||| canonicalize.ensures((&q,), None)
        }
    }
}

fn strip_or_keep(p: String) -> (r: String)
    ensures
        r@ == strip_verbatim(p@),
{
    match strip_verbatim_prefix(p.as_str()) {
        Some(s) => s,
        None => p,
    }
}

/// Looks for the game's executables in the current folder, its parent and
/// the configured install root's `bin` folder, in that order: the first
/// folder where both are files that resolve to canonical paths gives them,
/// without their verbatim prefixes. `None` when no folder does.
pub fn get_game_binary_paths(
    config: &Config,
    is_file: &impl Fn(&String) -> bool,
    canonicalize: &impl Fn(&String) -> Option<String>,
) -> (r: Option<Bg3Exes>)
    requires
        forall|p: &String| is_file.requires((p,)),
        forall|p: &String| canonicalize.requires((p,)),
    ensures
        r matches Some(e) ==> exists|i: int| 0 <= i < 3 && yields_exes(*is_file, *canonicalize, #[trigger] binary_dirs(config.install_root@)[i], e)
            && forall|j: int| 0 <= j < i ==> misses_exes(*is_file, *canonicalize, #[trigger] binary_dirs(config.install_root@)[j]),
        r is None ==> forall|j: int| 0 <= j < 3 ==> misses_exes(*is_file, *canonicalize, #[trigger] binary_dirs(config.install_root@)[j]),
{
    let dirs = game_binary_dirs(config);
    let ghost dirs_view = binary_dirs(config.install_root@);
    assert(dirs@.len() == 3) by {
        assert(dirs@.map_values(|d: String| d@).len() == 3);
    }
    let mut i: usize = 0;
    while i < dirs.len()
        invariant
            dirs@.len() == 3,
            dirs@.map_values(|d: String| d@) == dirs_view,
            dirs_view == binary_dirs(config.install_root@),
            forall|p: &String| is_file.requires((p,)),
            forall|p: &String| canonicalize.requires((p,)),
            i <= 3,
            forall|j: int| 0 <= j < i ==> misses_exes(*is_file, *canonicalize, #[trigger] dirs_view[j]),
        decreases 3 - i,
    {
        let dir = dirs[i].as_str();
        assert(dirs_view[i as int] == dirs@[i as int]@);
        let bg3 = join_path(dir, "bg3.exe");
        let bg3_dx11 = join_path(dir, "bg3_dx11.exe");
        let first_file = is_file(&bg3);
        if !first_file {
            assert(misses_exes(*is_file, *canonicalize, dirs_view[i as int]));
        } else {
            let second_file = is_file(&bg3_dx11);
            if !second_file {
                assert(misses_exes(*is_file, *canonicalize, dirs_view[i as int]));
            } else {
                let a = canonicalize(&bg3);
                match a {
                    None => {
                        assert(misses_exes(*is_file, *canonicalize, dirs_view[i as int]));
                    },
                    Some(a) => {
                        let b = canonicalize(&bg3_dx11);
                        match b {
                            None => {
                                assert(misses_exes(*is_file, *canonicalize, dirs_view[i as int]));
                            },
                            Some(b) => {
                                let ghost av = a;
                                let ghost bv = b;
                                let exes = Bg3Exes { bg3: strip_or_keep(a), bg3_dx11: strip_or_keep(b) };
                                assert(yields_exes(*is_file, *canonicalize, dirs_view[i as int], exes));
                                return Some(exes);
                            },
                        }
                    },
                }
            }
        }
        i = i + 1;
    }
    None
}

/// The executables below an install root that was resolved to
/// `resolved_root`: `bin\bg3.exe` and `bin\bg3_dx11.exe`, each without the
/// verbatim prefix that resolving adds.
pub fn build_config_game_binary_paths(resolved_root: &str) -> (r: (String, String))
    ensures
        ({
            let bin = join(resolved_root@, "bin"@);
            &&& r.0@ == strip_verbatim(join(bin, "bg3.exe"@))
            &&& r.1@ == strip_verbatim(join(bin, "bg3_dx11.exe"@))
        }),
{
    let bin = join_path(resolved_root, "bin");
    let bg3 = join_path(bin.as_str(), "bg3.exe");
    let bg3_dx11 = join_path(bin.as_str(), "bg3_dx11.exe");
    (strip_or_keep(bg3), strip_or_keep(bg3_dx11))
}

} // verus!
