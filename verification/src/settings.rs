//! Where the user settings live: `~/Library/Application Support/MADO/settings.json`
//! on macOS (the colour settings sit beside it), `%APPDATA%\MADO` on Windows.
//!
//! The directory is built from the home directory (or "." when it is unknown)
//! by joining path components one at a time.

use vstd::prelude::*;

use crate::playlist::is_separator;

verus! {

/// `r` is `base` with `comp` joined on: directly when `base` is empty or ends
/// in a separator, else after a separator ('/' or, on Windows, '\\').
pub open spec fn is_joined(r: Seq<char>, base: Seq<char>, comp: Seq<char>) -> bool {
    ||| r == base + comp
    ||| sep_joined(r, base, comp)
}

/// `r` is `base`, one separator, then `comp`.
pub open spec fn sep_joined(r: Seq<char>, base: Seq<char>, comp: Seq<char>) -> bool {
    ||| r == base + seq!['/'] + comp
    ||| r == base + seq!['\\'] + comp
}

/// A component that joins as itself: not empty, no separator, no drive colon.
pub open spec fn plain_component(c: Seq<char>) -> bool {
    &&& c.len() > 0
    &&& !c.contains('/')
    &&& !c.contains('\\')
    &&& !c.contains(':')
}

/// A path with a Windows verbatim prefix (`\\?\`), which `Path::join`
/// rebuilds from its components.
pub open spec fn is_verbatim(b: Seq<char>) -> bool {
    &&& b.len() >= 4
    &&& b[0] == '\\'
    &&& b[1] == '\\'
    &&& b[2] == '?'
    &&& b[3] == '\\'
}

/// A base after which `Path::join` puts exactly one separator on every
/// platform: not empty, not ending in a separator, not a bare drive such as
/// `C:`, and not starting with two separators (no UNC, device or verbatim
/// prefix on Windows).
pub open spec fn plain_base(b: Seq<char>) -> bool {
    &&& b.len() > 0
    &&& !is_separator(b.last())
    &&& !(b.len() >= 2 && is_separator(b[0]) && is_separator(b[1]))
    &&& !(b.len() == 2 && b[1] == ':')
}

/// `std::path::Path::join` on text (`PathBuf::push` of a relative
/// component). Claimed of the result, for a plain component: unless the base
/// has a verbatim prefix, it is the base followed by the component, with or
/// without one separator between them; after a `plain_base` the separator is
/// always there, as `PathBuf::push` documents. Which separator it is ('/' or
/// '\\') depends on the platform and is left unsaid, as is the result after a
/// verbatim base, which is normalised component by component.
#[verifier::external_body]
fn path_join(base: &str, comp: &str) -> (r: String)
    requires
        plain_component(comp@),
    ensures
        !is_verbatim(base@) ==> is_joined(r@, base@, comp@),
        plain_base(base@) ==> sep_joined(r@, base@, comp@),
{
    std::path::Path::new(base).join(comp).to_string_lossy().into_owned()
}

/// After a plain base, a separator-joined plain component leaves a plain base
/// again, and the separator is the one character between them.
proof fn lemma_sep_joined_plain(x: Seq<char>, base: Seq<char>, comp: Seq<char>)
    requires
        plain_base(base),
        plain_component(comp),
        sep_joined(x, base, comp),
    ensures
        plain_base(x),
        !is_verbatim(x),
        is_separator(x[base.len() as int]),
        x == base + seq![x[base.len() as int]] + comp,
{
    assert(x[x.len() - 1] == comp[comp.len() - 1]);
    assert(comp.contains(comp[comp.len() - 1]));
    assert(x[0] == base[0]);
    if base.len() >= 2 {
        assert(x[1] == base[1]);
    } else {
        assert(base.last() == base[0]);
    }
}

/// The macOS settings directory text, with the given separators.
pub open spec fn config_dir_text(home: Seq<char>, a: char, b: char, c: char) -> Seq<char> {
    home + seq![a] + "Library"@ + seq![b] + "Application Support"@ + seq![c] + "MADO"@
}

/// The settings file text, with the given separators.
pub open spec fn settings_file_text(home: Seq<char>, a: char, b: char, c: char, d: char) -> Seq<char> {
    config_dir_text(home, a, b, c) + seq![d] + "settings.json"@
}

/// The home directory, or "." when it is unknown.
pub open spec fn home_or_dot(home: Option<Seq<char>>) -> Seq<char> {
    match home {
        Some(h) => h,
        None => "."@,
    }
}

pub open spec fn opt_view(o: Option<&str>) -> Option<Seq<char>> {
    match o {
        Some(s) => Some(s@),
        None => None,
    }
}

/// `r` is `base` with the three components joined on in turn.
pub open spec fn joined3(r: Seq<char>, base: Seq<char>, a: Seq<char>, b: Seq<char>, c: Seq<char>) -> bool {
    exists|x: Seq<char>, y: Seq<char>|
        #[trigger] is_joined(x, base, a) && #[trigger] is_joined(y, x, b) && is_joined(r, y, c)
}

/// The path starts with two separators (a UNC, device or verbatim prefix on
/// Windows).
pub open spec fn has_unc_start(b: Seq<char>) -> bool {
    b.len() >= 2 && is_separator(b[0]) && is_separator(b[1])
}

proof fn lemma_joined_prefix_suffix(r: Seq<char>, base: Seq<char>, comp: Seq<char>)
    requires
        is_joined(r, base, comp),
    ensures
        r.len() >= base.len() + comp.len(),
        r.subrange(0, base.len() as int) == base,
        r.subrange(r.len() - comp.len(), r.len() as int) == comp,
{
    if r == base + comp {
        assert(r.subrange(0, base.len() as int) =~= base);
        assert(r.subrange(r.len() - comp.len(), r.len() as int) =~= comp);
    } else if r == base + seq!['/'] + comp {
        assert(r.subrange(0, base.len() as int) =~= base);
        assert(r.subrange(r.len() - comp.len(), r.len() as int) =~= comp);
    } else {
        assert(r.subrange(0, base.len() as int) =~= base);
        assert(r.subrange(r.len() - comp.len(), r.len() as int) =~= comp);
    }
}

/// Joining a plain component that does not start with '?' onto a base that
/// has no UNC start, or that is at least four characters long and not
/// verbatim, never makes a verbatim path.
proof fn lemma_join_not_verbatim(x: Seq<char>, base: Seq<char>, comp: Seq<char>)
    requires
        is_joined(x, base, comp),
        plain_component(comp),
        comp[0] != '?',
        !has_unc_start(base) || (base.len() >= 4 && !is_verbatim(base)),
    ensures
        !is_verbatim(x),
{
    assert(comp.contains(comp[0]));
    if x.len() >= 4 && base.len() < 4 {
        if x == base + comp {
            assert(x[base.len() as int] == comp[0]);
        } else {
            assert(x[base.len() as int + 1] == comp[0]);
            if base.len() >= 2 {
                assert(x[0] == base[0] && x[1] == base[1]);
            } else if base.len() == 1 {
                assert(x[0] == base[0]);
            }
        }
    } else if x.len() >= 4 {
        assert(x[0] == base[0] && x[1] == base[1] && x[2] == base[2] && x[3] == base[3]);
    }
}

/// The directory of the settings on macOS: `<home>/Library/Application Support/MADO`.
pub fn config_dir(home: Option<&str>) -> (r: String)
    ensures
        !has_unc_start(home_or_dot(opt_view(home))) ==> r@.len() >= 4 && r@.subrange(r@.len() - 4, r@.len() as int)
            == "MADO"@,
        !has_unc_start(home_or_dot(opt_view(home))) ==> joined3(
            r@,
            home_or_dot(opt_view(home)),
            "Library"@,
            "Application Support"@,
            "MADO"@,
        ),
        !has_unc_start(home_or_dot(opt_view(home))) ==> r@.subrange(0, home_or_dot(opt_view(home)).len() as int)
            == home_or_dot(opt_view(home)),
        plain_base(home_or_dot(opt_view(home))) ==> exists|a: char, b: char, c: char|
            is_separator(a) && is_separator(b) && is_separator(c) && r@ == #[trigger] config_dir_text(
                home_or_dot(opt_view(home)),
                a,
                b,
                c,
            ),
{
    proof {
        reveal_strlit("Library");
        reveal_strlit("Application Support");
        reveal_strlit("MADO");
        reveal_strlit(".");
    }
    let base: &str = match home {
        Some(h) => h,
        None => ".",
    };
    let lib = path_join(base, "Library");
    let support = path_join(lib.as_str(), "Application Support");
    let dir = path_join(support.as_str(), "MADO");
    proof {
        assert("MADO"@[0] == 'M' && "Library"@[0] == 'L' && "Application Support"@[0] == 'A');
        if !has_unc_start(base@) {
            assert(!is_verbatim(base@));
            lemma_joined_prefix_suffix(lib@, base@, "Library"@);
            lemma_join_not_verbatim(lib@, base@, "Library"@);
            lemma_joined_prefix_suffix(support@, lib@, "Application Support"@);
            lemma_join_not_verbatim(support@, lib@, "Application Support"@);
            lemma_joined_prefix_suffix(dir@, support@, "MADO"@);
            assert(support@.subrange(0, base@.len() as int) =~= support@.subrange(0, lib@.len() as int).subrange(0, base@.len() as int));
            assert(dir@.subrange(0, base@.len() as int) =~= dir@.subrange(0, support@.len() as int).subrange(0, base@.len() as int));
        }
        if plain_base(base@) {
            lemma_sep_joined_plain(lib@, base@, "Library"@);
            lemma_sep_joined_plain(support@, lib@, "Application Support"@);
            lemma_sep_joined_plain(dir@, support@, "MADO"@);
            let a = lib@[base@.len() as int];
            let b = support@[lib@.len() as int];
            let c = dir@[support@.len() as int];
            assert(dir@ =~= config_dir_text(base@, a, b, c));
        }
    }
    dir
}

/// A settings directory joined onto a home without a UNC start is not a
/// verbatim path.
proof fn lemma_config_dir_not_verbatim(dir: Seq<char>, h: Seq<char>)
    requires
        !has_unc_start(h),
        joined3(dir, h, "Library"@, "Application Support"@, "MADO"@),
    ensures
        !is_verbatim(dir),
{
    reveal_strlit("Library");
    reveal_strlit("Application Support");
    reveal_strlit("MADO");
    assert("MADO"@[0] == 'M' && "Library"@[0] == 'L' && "Application Support"@[0] == 'A');
    let (x, y) = choose|x: Seq<char>, y: Seq<char>|
        #[trigger] is_joined(x, h, "Library"@) && #[trigger] is_joined(y, x, "Application Support"@)
            && is_joined(dir, y, "MADO"@);
    lemma_joined_prefix_suffix(x, h, "Library"@);
    lemma_join_not_verbatim(x, h, "Library"@);
    lemma_joined_prefix_suffix(y, x, "Application Support"@);
    lemma_join_not_verbatim(y, x, "Application Support"@);
    lemma_join_not_verbatim(dir, y, "MADO"@);
}

/// The settings file joined with a separator onto an exactly separated
/// settings directory is exactly separated too.
proof fn lemma_settings_file_text(dir: Seq<char>, p: Seq<char>, h: Seq<char>)
    requires
        plain_base(h),
        exists|a: char, b: char, c: char|
            is_separator(a) && is_separator(b) && is_separator(c) && dir == #[trigger] config_dir_text(h, a, b, c),
        plain_base(dir) ==> sep_joined(p, dir, "settings.json"@),
    ensures
        exists|a: char, b: char, c: char, d: char|
            is_separator(a) && is_separator(b) && is_separator(c) && is_separator(d) && p
                == #[trigger] settings_file_text(h, a, b, c, d),
{
    reveal_strlit("MADO");
    reveal_strlit("settings.json");
    let (a, b, c) = choose|a: char, b: char, c: char|
        is_separator(a) && is_separator(b) && is_separator(c) && dir == #[trigger] config_dir_text(h, a, b, c);
    assert(dir.len() > 0 && dir.last() == 'O');
    assert(plain_base(dir)) by {
        assert(dir[0] == h[0]);
        if h.len() >= 2 {
            assert(dir[1] == h[1]);
        } else {
            assert(h.last() == h[0]);
        }
    }
    lemma_sep_joined_plain(p, dir, "settings.json"@);
    let d = p[dir.len() as int];
    assert(p =~= settings_file_text(h, a, b, c, d));
}

/// The settings file: `settings.json` inside `config_dir`.
pub fn settings_path(home: Option<&str>) -> (r: String)
    ensures
        !has_unc_start(home_or_dot(opt_view(home))) ==> exists|d: Seq<char>|
            joined3(d, home_or_dot(opt_view(home)), "Library"@, "Application Support"@, "MADO"@)
                && #[trigger] is_joined(r@, d, "settings.json"@),
        !has_unc_start(home_or_dot(opt_view(home))) ==> r@.subrange(0, home_or_dot(opt_view(home)).len() as int)
            == home_or_dot(opt_view(home)),
        plain_base(home_or_dot(opt_view(home))) ==> exists|a: char, b: char, c: char, d: char|
            is_separator(a) && is_separator(b) && is_separator(c) && is_separator(d) && r@
                == #[trigger] settings_file_text(home_or_dot(opt_view(home)), a, b, c, d),
{
    proof {
        reveal_strlit("settings.json");
        reveal_strlit("MADO");
    }
    let dir = config_dir(home);
    let p = path_join(dir.as_str(), "settings.json");
    proof {
        let h = home_or_dot(opt_view(home));
        if !has_unc_start(h) {
            lemma_config_dir_not_verbatim(dir@, h);
            lemma_joined_prefix_suffix(p@, dir@, "settings.json"@);
            assert(p@.subrange(0, h.len() as int) =~= p@.subrange(0, dir@.len() as int).subrange(0, h.len() as int));
        }
        if plain_base(h) {
            lemma_settings_file_text(dir@, p@, h);
        }
    }
    p
}

/// The directory of the colour settings on Windows: `<APPDATA>\MADO`, or `.\MADO`
/// when `APPDATA` is unknown.
pub fn windows_config_dir(appdata: Option<&str>) -> (r: String)
    ensures
        !is_verbatim(home_or_dot(opt_view(appdata))) ==> is_joined(r@, home_or_dot(opt_view(appdata)), "MADO"@),
        plain_base(home_or_dot(opt_view(appdata))) ==> sep_joined(r@, home_or_dot(opt_view(appdata)), "MADO"@),
{
    proof {
        reveal_strlit("MADO");
        reveal_strlit(".");
    }
    let base: &str = match appdata {
        Some(h) => h,
        None => ".",
    };
    path_join(base, "MADO")
}

} // verus!
