use vstd::prelude::*;

verus! {

/// The separator convention that paths are normalised to.
#[derive(Clone, Copy, Debug, PartialEq, Eq, Structural)]
pub enum PathStyle {
    /// Forward slashes separate components; a backslash is a stray foreign separator.
    Unix,
    /// Backslashes separate components; forward slashes are rewritten to them.
    Windows,
}

/// The separator character of a convention.
pub open spec fn separator(style: PathStyle) -> char {
    match style {
        PathStyle::Unix => '/',
        PathStyle::Windows => '\\',
    }
}

/// A path with every foreign separator handled: on Unix every backslash is
/// dropped, on Windows every forward slash becomes a backslash.
pub open spec fn sanitized(style: PathStyle, p: Seq<char>) -> Seq<char> {
    match style {
        PathStyle::Unix => p.filter(|c: char| c != '\\'),
        PathStyle::Windows => p.map_values(|c: char| if c == '/' { '\\' } else { c }),
    }
}

/// Normalises the separators of `path` for `style`.
pub fn sanitize_path(path: String, style: PathStyle) -> (r: String)
    ensures
        r@ == sanitized(style, path@),
{
    let s = path.as_str();
    let n = s.unicode_len();
    let mut out = String::new();
    let mut i: usize = 0;
    while i < n
        invariant
            n == s@.len(),
            s@ == path@,
            i <= n,
            out@ == sanitized(style, s@.subrange(0, i as int)),
        decreases n - i,
    {
        let c = s.get_char(i);
        proof {
            let pre = s@.subrange(0, i as int);
            assert(s@.subrange(0, i + 1) =~= pre.push(c));
            match style {
                PathStyle::Unix => {
                    pre.lemma_filter_push(c, |c: char| c != '\\');
                },
                PathStyle::Windows => {
                    assert(pre.push(c).map_values(|c: char| if c == '/' { '\\' } else { c })
                        =~= pre.map_values(|c: char| if c == '/' { '\\' } else { c }).push(
                        if c == '/' { '\\' } else { c },
                    ));
                },
            }
        }
        match style {
            PathStyle::Unix => {
                if c != '\\' {
                    out.append(s.substring_char(i, i + 1));
                }
            },
            PathStyle::Windows => {
                if c == '/' {
                    let back = "\\";
                    proof {
                        reveal_strlit("\\");
                    }
                    out.append(back);
                } else {
                    out.append(s.substring_char(i, i + 1));
                }
            },
        }
        i = i + 1;
    }
    assert(s@.subrange(0, n as int) =~= s@);
    out
}

/// Sanitizing is idempotent: a sanitized path is left as it is by a second pass.
pub proof fn lemma_sanitize_idempotent(style: PathStyle, p: Seq<char>)
    ensures
        sanitized(style, sanitized(style, p)) == sanitized(style, p),
    decreases p.len(),
{
    match style {
        PathStyle::Unix => {
            let f = |c: char| c != '\\';
            if p.len() > 0 {
                let init = p.drop_last();
                assert(init.push(p.last()) =~= p);
                init.lemma_filter_push(p.last(), f);
                lemma_sanitize_idempotent(style, init);
                if f(p.last()) {
                    init.filter(f).lemma_filter_push(p.last(), f);
                }
            } else {
                reveal(Seq::filter);
            }
        },
        PathStyle::Windows => {
            let q = sanitized(style, p);
            assert(sanitized(style, q) =~= q);
        },
    }
}

/// Name of the application folder under the user's home directory.
pub const HOME_DIR: &'static str = ".quantum_random";

/// File name, without extension, of the default entropy bank.
pub const ENTROPY_BANK_DEFAULT_FILE: &'static str = "local_storage";

/// What a sequence of string slices reads when written one after another.
pub open spec fn concat_views(parts: Seq<&str>) -> Seq<char> {
    parts.map_values(|s: &str| s@).flatten()
}

/// Joins the slices of `str_vec`, in order, into one string.
pub fn condense_str_vec(str_vec: Vec<&str>) -> (r: String)
    ensures
        r@ == concat_views(str_vec@),
{
    let mut out = String::new();
    let mut i: usize = 0;
    while i < str_vec.len()
        invariant
            i <= str_vec@.len(),
            out@ == concat_views(str_vec@.subrange(0, i as int)),
        decreases str_vec@.len() - i,
    {
        let part: &str = str_vec[i];
        proof {
            let f = |s: &str| s@;
            let pre = str_vec@.subrange(0, i as int);
            assert(str_vec@.subrange(0, i + 1) =~= pre.push(part));
            assert(pre.push(part).map_values(f) =~= pre.map_values(f).push(part@));
            pre.map_values(f).lemma_flatten_push(part@);
        }
        out.append(part);
        i = i + 1;
    }
    assert(str_vec@.subrange(0, str_vec@.len() as int) =~= str_vec@);
    out
}

/// The application's home directory below a user home, with a trailing separator.
pub open spec fn app_home(style: PathStyle, user_home: Seq<char>) -> Seq<char> {
    user_home.push(separator(style)) + HOME_DIR@.push(separator(style))
}

/// The well-known location of the default entropy bank below an application home.
pub open spec fn entropy_path(style: PathStyle, home: Seq<char>) -> Seq<char> {
    sanitized(style, home + "cfg/"@ + ENTROPY_BANK_DEFAULT_FILE@ + ".entropy"@)
}

/// The separator of `style` as a one-character string.
pub fn separator_str(style: PathStyle) -> (r: &'static str)
    ensures
        r@ == seq![separator(style)],
{
    proof {
        reveal_strlit("/");
        reveal_strlit("\\");
    }
    match style {
        PathStyle::Unix => "/",
        PathStyle::Windows => "\\",
    }
}

/// The application home directory below the user home `user_home`.
pub fn app_home_dir(user_home: &str, style: PathStyle) -> (r: String)
    ensures
        r@ == app_home(style, user_home@),
{
    let sep = separator_str(style);
    let r = condense_str_vec(vec![user_home, sep, HOME_DIR, sep]);
    proof {
        let parts = seq![user_home, sep, HOME_DIR, sep];
        let views = parts.map_values(|s: &str| s@);
        assert(views =~= seq![user_home@, sep@, HOME_DIR@, sep@]);
        reveal_with_fuel(Seq::flatten, 5);
        assert(views.flatten() =~= app_home(style, user_home@));
    }
    r
}

/// The sanitized location of the default entropy bank below the application home `home`.
pub fn entropy_file_path(home: &str, style: PathStyle) -> (r: String)
    ensures
        r@ == entropy_path(style, home@),
{
    let cfg = "cfg/";
    let ext = ".entropy";
    let joined = condense_str_vec(vec![home, cfg, ENTROPY_BANK_DEFAULT_FILE, ext]);
    proof {
        let parts = seq![home, cfg, ENTROPY_BANK_DEFAULT_FILE, ext];
        let views = parts.map_values(|s: &str| s@);
        assert(views =~= seq![home@, cfg@, ENTROPY_BANK_DEFAULT_FILE@, ext@]);
        reveal_with_fuel(Seq::flatten, 5);
        assert(views.flatten() =~= home@ + cfg@ + ENTROPY_BANK_DEFAULT_FILE@ + ext@);
    }
    sanitize_path(joined, style)
}

/// Why a path below the user's home directory could not be formed.
#[derive(Clone, Copy, Debug, PartialEq, Eq, Structural)]
pub enum PathError {
    /// The operating system reports no home directory for the current user,
    /// or reports one that is not valid Unicode.
    HomeDirUnavailable,
}

/// Relies on dirs_2::home_dir for the current user's home directory, read from
/// the environment or the user database; its text is kept when it is valid Unicode.
#[verifier::external_body]
fn os_home_dir() -> (r: Option<String>) {
    match dirs_2::home_dir() {
        Some(p) => p.into_os_string().into_string().ok(),
        None => None,
    }
}

/// Relies on std::path::is_separator: whether `c` separates path components on
/// the platform the library was built for; the forward slash always does.
#[verifier::external_body]
fn is_platform_separator(c: char) -> (r: bool)
    ensures
        c == '/' ==> r,
{
    std::path::is_separator(c)
}

/// The convention of a platform: Windows where a backslash separates path
/// components, Unix elsewhere.
pub fn style_for(backslash_separates: bool) -> (r: PathStyle)
    ensures
        r == (if backslash_separates { PathStyle::Windows } else { PathStyle::Unix }),
{
    if backslash_separates {
        PathStyle::Windows
    } else {
        PathStyle::Unix
    }
}

/// The convention of the platform the library was built for.
pub fn host_style() -> (r: PathStyle) {
    style_for(is_platform_separator('\\'))
}

/// The application home directory below the user home that the operating
/// system reported, or why there is none.
pub fn resolve_home_dir(user_home: Option<String>, style: PathStyle) -> (r: Result<String, PathError>)
    ensures
        match user_home {
            Some(h) => r is Ok && r->Ok_0@ == app_home(style, h@),
            None => r == Err::<String, PathError>(PathError::HomeDirUnavailable),
        },
{
    match user_home {
        Some(h) => Ok(app_home_dir(h.as_str(), style)),
        None => Err(PathError::HomeDirUnavailable),
    }
}

/// The application home directory of the current user, with a trailing
/// separator of `style`.
pub fn get_home_dir(style: PathStyle) -> (r: Result<String, PathError>)
    ensures
        r is Ok ==> exists|h: Seq<char>| r->Ok_0@ == app_home(style, h),
{
    resolve_home_dir(os_home_dir(), style)
}

/// Where the default entropy bank of the current user lies.
pub fn get_entropy_file_path(style: PathStyle) -> (r: Result<String, PathError>)
    ensures
        r is Ok ==> exists|h: Seq<char>| r->Ok_0@ == entropy_path(style, app_home(style, h)),
{
    match get_home_dir(style) {
        Ok(home) => Ok(entropy_file_path(home.as_str(), style)),
        Err(e) => Err(e),
    }
}

} // verus!
