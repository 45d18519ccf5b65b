//! Color themes: picking a theme out of a directory listing, the loaded-theme
//! collection, and the conversion of a theme's TOML source to JSON.
//!
//! Listing directories and reading theme files is input/output and stays with
//! the caller; given a listing, the choice of theme is verified here, and the
//! TOML-to-JSON conversion is an outside computation behind a trusted
//! wrapper.

use vstd::prelude::*;
use crate::error::TermError;
use crate::strutil::str_eq;

verus! {

/// The spec-level value of a [`ThemeItem`].
pub ghost struct ThemeItemView {
    pub name: Seq<char>,
    pub path: Seq<char>,
    pub toml_file_path: Option<Seq<char>>,
}

/// One discovered theme: its name (the theme directory's name), the theme
/// directory's path, and the path of the TOML file that defines it.
#[derive(Debug, Clone)]
pub struct ThemeItem {
    pub name: String,
    pub path: String,
    pub toml_file_path: Option<String>,
}

impl View for ThemeItem {
    type V = ThemeItemView;

    open spec fn view(&self) -> ThemeItemView {
        ThemeItemView {
            name: self.name@,
            path: self.path@,
            toml_file_path: match self.toml_file_path {
                Some(p) => Some(p@),
                None => None,
            },
        }
    }
}

/// One entry of a theme directory's listing: the entry's path and whether it
/// is a regular file.
pub type DirEntryInfo = (String, bool);

/// The entry is a file whose path ends in `.toml`.
pub open spec fn spec_entry_is_toml(e: (Seq<char>, bool)) -> bool {
    &&& e.1
    &&& e.0.len() >= 5
    &&& e.0.subrange(e.0.len() - 5, e.0.len() as int) == ".toml"@
}

/// Whether this listing entry is a theme-defining TOML file.
fn entry_is_toml(e: &DirEntryInfo) -> (r: bool)
    ensures
        r == spec_entry_is_toml((e.0@, e.1)),
{
    if !e.1 {
        return false;
    }
    let n: usize = e.0.as_str().unicode_len();
    if n < 5 {
        return false;
    }
    let tail = e.0.as_str().substring_char(n - 5, n);
    str_eq(tail, ".toml")
}

impl ThemeItem {
    /// Picks the theme out of one theme directory's listing: the first entry
    /// that is a file ending in `.toml` defines the theme, named after the
    /// directory; a directory with no such file holds no theme.
    pub fn load_from_file(dir_name: &str, dir_path: &str, entries: &Vec<DirEntryInfo>) -> (r:
        Option<ThemeItem>)
        ensures
            (r is Some) <==> exists|i: int|
                0 <= i < entries@.len() && spec_entry_is_toml(
                    (#[trigger] entries@[i].0@, entries@[i].1),
                ),
            r matches Some(t) ==> {
                &&& t@.name == dir_name@
                &&& t@.path == dir_path@
                &&& exists|i: int|
                    {
                        &&& 0 <= i < entries@.len()
                        &&& spec_entry_is_toml((#[trigger] entries@[i].0@, entries@[i].1))
                        &&& t@.toml_file_path == Some(entries@[i].0@)
                        &&& forall|k: int|
                            0 <= k < i ==> !spec_entry_is_toml(
                                (#[trigger] entries@[k].0@, entries@[k].1),
                            )
                    }
            },
    {
        let n: usize = entries.len();
        let mut i: usize = 0;
        while i < n
            invariant
                n == entries@.len(),
                i <= n,
                forall|k: int|
                    0 <= k < i ==> !spec_entry_is_toml((#[trigger] entries@[k].0@, entries@[k].1)),
            decreases n - i,
        {
            let e = &entries[i];
            if entry_is_toml(e) {
                return Some(
                    ThemeItem {
                        name: dir_name.to_owned(),
                        path: dir_path.to_owned(),
                        toml_file_path: Some(e.0.clone()),
                    },
                );
            }
            i = i + 1;
        }
        None
    }
}

impl ThemeItem {
    /// A copy of this theme, field for field.
    pub fn duplicate(&self) -> (r: ThemeItem)
        ensures
            r@ == self@,
    {
        let toml_file_path = match self.toml_file_path.as_ref() {
            Some(p) => Some(p.clone()),
            None => None,
        };
        ThemeItem { name: self.name.clone(), path: self.path.clone(), toml_file_path }
    }
}

/// The loaded themes, in discovery order.
pub struct ThemeContext {
    candidates: Vec<ThemeItem>,
}

impl View for ThemeContext {
    type V = Seq<ThemeItemView>;

    closed spec fn view(&self) -> Seq<ThemeItemView> {
        self.candidates@.map_values(|t: ThemeItem| t@)
    }
}

impl ThemeContext {
    /// An empty theme collection.
    pub fn new() -> (r: ThemeContext)
        ensures
            r@.len() == 0,
    {
        let r = ThemeContext { candidates: Vec::new() };
        assert(r@ =~= Seq::<ThemeItemView>::empty());
        r
    }

    /// Appends one theme.
    pub fn add(&mut self, item: ThemeItem)
        ensures
            final(self)@ == old(self)@.push(item@),
    {
        let ghost item_view = item@;
        self.candidates.push(item);
        assert(self@ =~= old(self)@.push(item_view));
    }

    /// Whether no theme has been loaded.
    pub fn is_empty(&self) -> (r: bool)
        ensures
            r == (self@.len() == 0),
    {
        self.candidates.is_empty()
    }

    /// How many themes are loaded.
    pub fn len(&self) -> (r: usize)
        ensures
            r == self@.len(),
    {
        self.candidates.len()
    }

    /// The theme at the given position.
    pub fn index(&self, i: usize) -> (r: &ThemeItem)
        requires
            i < self@.len(),
        ensures
            r@ == self@[i as int],
    {
        &self.candidates[i]
    }
}

/// The JSON rendering of a TOML document, where the document parses; absent
/// where it does not. Named, not written out: it stands for what the outside
/// TOML parser and JSON writer compute, a function of the text alone.
pub uninterp spec fn json_of_toml(s: Seq<char>) -> Option<Seq<char>>;

/// Relies on `toml::from_str` and `serde_json::to_string`: parses TOML text
/// and re-renders its value as JSON. Both are deterministic in the text, so
/// the result is named `json_of_toml`; a failure of either step is the
/// rendered error message.
#[verifier::external_body]
fn toml_to_json(s: &str) -> (r: core::result::Result<String, String>)
    ensures
        r matches Ok(j) ==> json_of_toml(s@) == Some(j@),
        (r is Err) <==> (json_of_toml(s@) is None),
{
    match toml::from_str::<toml::Value>(s) {
        Err(e) => Err(format!("{}", e)),
        Ok(v) => match serde_json::to_string(&v) {
            Ok(j) => Ok(j),
            Err(e) => Err(format!("{}", e)),
        },
    }
}

/// The JSON content served for a theme, converted from the theme file's TOML
/// text: exactly the JSON rendering of the document, or a TOML error for text
/// that does not parse.
pub fn theme_json_content(toml_text: &str) -> (r: core::result::Result<String, TermError>)
    ensures
        r matches Ok(j) ==> json_of_toml(toml_text@) == Some(j@),
        (r is Err) <==> (json_of_toml(toml_text@) is None),
        r matches Err(e) ==> e is TomlError,
{
    match toml_to_json(toml_text) {
        Ok(j) => Ok(j),
        Err(m) => Err(TermError::TomlError(m)),
    }
}

} // verus!
