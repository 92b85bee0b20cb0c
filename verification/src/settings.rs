//! What is remembered from one run to the next, and where it is kept.

use vstd::prelude::*;
use vstd::string::*;

verus! {

/// Mathematical value of [`Prefs`].
pub struct PrefsView {
    pub model: Option<Seq<char>>,
    pub port: Option<Seq<char>>,
    pub output_dir: Option<Seq<char>>,
}

/// The remembered choices: the model, the port and the directory for
/// downloaded tracks. A choice that was never made is absent.
#[derive(Debug, PartialEq, Eq)]
pub struct Prefs {
    pub model: Option<String>,
    pub port: Option<String>,
    pub output_dir: Option<String>,
}

/// The value of a text that may be absent.
pub open spec fn text_opt_view(s: Option<String>) -> Option<Seq<char>> {
    match s {
        Some(s) => Some(s@),
        None => None,
    }
}

impl View for Prefs {
    type V = PrefsView;

    open spec fn view(&self) -> PrefsView {
        PrefsView {
            model: text_opt_view(self.model),
            port: text_opt_view(self.port),
            output_dir: text_opt_view(self.output_dir),
        }
    }
}

/// A copy of a text that may be absent.
pub fn clone_text_opt(s: &Option<String>) -> (r: Option<String>)
    ensures
        text_opt_view(r) == text_opt_view(*s),
{
    match s {
        Some(s) => Some(s.clone()),
        None => None,
    }
}

impl Clone for Prefs {
    fn clone(&self) -> (r: Self)
        ensures
            r@ == self@,
    {
        Prefs {
            model: clone_text_opt(&self.model),
            port: clone_text_opt(&self.port),
            output_dir: clone_text_opt(&self.output_dir),
        }
    }
}

impl Prefs {
    /// Nothing remembered.
    pub fn new() -> (r: Self)
        ensures
            r@ == (PrefsView { model: None, port: None, output_dir: None }),
    {
        Prefs { model: None, port: None, output_dir: None }
    }
}

/// A relative name appended to a directory: a separator goes between them
/// unless the directory is empty or already ends in one.
pub open spec fn joined(base: Seq<char>, name: Seq<char>) -> Seq<char> {
    if base.len() == 0 || base.last() == '/' {
        base + name
    } else {
        base + seq!['/'] + name
    }
}

/// The directory that holds the settings of the user whose home is `home`.
pub open spec fn settings_dir_of(home: Seq<char>) -> Seq<char> {
    joined(home, ".gpsami"@)
}

/// The file that holds the settings of the user whose home is `home`.
pub open spec fn settings_file_of(home: Seq<char>) -> Seq<char> {
    joined(settings_dir_of(home), "gpsami.ini"@)
}

/// Append the relative name `name` to the directory `base`.
pub fn join(base: &str, name: &str) -> (r: String)
    ensures
        r@ == joined(base@, name@),
{
    let n = base.unicode_len();
    let mut out = String::from_str(base);
    if n > 0 && base.get_char(n - 1) != '/' {
        proof {
            reveal_strlit("/");
            assert("/"@ =~= seq!['/']);
        }
        out.append("/");
    }
    out.append(name);
    out
}

/// The directory that holds the settings of the user whose home is `home`.
pub fn settings_dir_in(home: &str) -> (r: String)
    ensures
        r@ == settings_dir_of(home@),
{
    join(home, ".gpsami")
}

/// The file that holds the settings of the user whose home is `home`.
pub fn settings_file_in(home: &str) -> (r: String)
    ensures
        r@ == settings_file_of(home@),
{
    let dir = settings_dir_in(home);
    join(dir.as_str(), "gpsami.ini")
}

/// Calls `dirs::home_dir`. The answer depends on the environment and on the
/// user database, so nothing is claimed of it. A home whose path is not valid
/// Unicode is handed on as absent.
#[verifier::external_body]
fn home_dir() -> Option<String> {
    dirs::home_dir().and_then(|p| p.into_os_string().into_string().ok())
}

/// The directory that holds the settings of a user whose home is `home`, if
/// the home is known.
pub open spec fn settings_dir_for(home: Option<Seq<char>>) -> Option<Seq<char>> {
    match home {
        Some(h) => Some(settings_dir_of(h)),
        None => None,
    }
}

/// The file that holds the settings of a user whose home is `home`, if the
/// home is known.
pub open spec fn settings_file_for(home: Option<Seq<char>>) -> Option<Seq<char>> {
    match home {
        Some(h) => Some(settings_file_of(h)),
        None => None,
    }
}

/// The directory that holds the settings of a user whose home is `home`;
/// `None` when the home is not known.
pub fn settings_dir_from(home: Option<String>) -> (r: Option<String>)
    ensures
        text_opt_view(r) == settings_dir_for(text_opt_view(home)),
{
    match home {
        Some(h) => Some(settings_dir_in(h.as_str())),
        None => None,
    }
}

/// The file that holds the settings of a user whose home is `home`; `None`
/// when the home is not known.
pub fn settings_file_from(home: Option<String>) -> (r: Option<String>)
    ensures
        text_opt_view(r) == settings_file_for(text_opt_view(home)),
{
    match home {
        Some(h) => Some(settings_file_in(h.as_str())),
        None => None,
    }
}

/// The directory that holds the current user's settings; `None` when the
/// user's home cannot be told.
pub fn settings_dir() -> (r: Option<String>)
    ensures
        r matches Some(p) ==> exists|home: Seq<char>| p@ == settings_dir_of(home),
{
    settings_dir_from(home_dir())
}

/// The file that holds the current user's settings; `None` when the user's
/// home cannot be told.
pub fn settings_file() -> (r: Option<String>)
    ensures
        r matches Some(p) ==> exists|home: Seq<char>| p@ == settings_file_of(home),
{
    settings_file_from(home_dir())
}

} // verus!
