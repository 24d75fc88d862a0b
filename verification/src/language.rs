//! Which language a text is rendered in: the one asked for where the
//! renderer knows it, plain text otherwise.

use vstd::prelude::*;

verus! {

/// The language that any renderer can show.
pub const PLAIN_TEXT: &'static str = "txt";

/// A language that the renderer knows: its name, and the file extensions
/// that stand for it.
#[derive(Clone, Debug, PartialEq, Eq)]
pub struct Syntax {
    pub name: String,
    pub file_extensions: Vec<String>,
}

/// A language as contracts see it.
pub struct SyntaxView {
    pub name: Seq<char>,
    pub file_extensions: Seq<Seq<char>>,
}

impl View for Syntax {
    type V = SyntaxView;

    open spec fn view(&self) -> SyntaxView {
        SyntaxView {
            name: self.name@,
            file_extensions: Seq::new(
                self.file_extensions@.len(),
                |j: int| self.file_extensions@[j]@,
            ),
        }
    }
}

/// A text in lower case, as `str::to_lowercase` gives it.
pub uninterp spec fn lowercase(text: Seq<char>) -> Seq<char>;

/// Calls `str::to_lowercase`. Believed: the outcome depends on the text
/// alone; `lowercase` names it.
#[verifier::external_body]
fn to_lowercase(text: &str) -> (lowered: String)
    ensures
        lowered@ == lowercase(text@),
{
    text.to_lowercase()
}

/// Whether a hint names this language: by its name, whatever the case of
/// either, or by one of its file extensions, taken as they stand, against the
/// hint in lower case.
pub open spec fn names_language(syntax: SyntaxView, hint: Seq<char>) -> bool {
    ||| lowercase(syntax.name) == lowercase(hint)
    ||| syntax.file_extensions.contains(lowercase(hint))
}

/// Whether a hint names one of the languages.
pub open spec fn language_known(hint: Seq<char>, langs: Seq<Syntax>) -> bool {
    exists|i: int| 0 <= i < langs.len() && names_language(#[trigger] langs[i]@, hint)
}

/// The language in which a text with this hint is rendered.
pub open spec fn rendered_language(hint: Seq<char>, langs: Seq<Syntax>) -> Seq<char> {
    if language_known(hint, langs) {
        hint
    } else {
        PLAIN_TEXT@
    }
}

/// Whether one of the extensions is the given text.
fn has_extension(extensions: &Vec<String>, lowered: &String) -> (found: bool)
    ensures
        found == Seq::new(extensions@.len(), |j: int| extensions@[j]@).contains(lowered@),
{
    let ghost views = Seq::new(extensions@.len(), |j: int| extensions@[j]@);
    let mut j: usize = 0;
    while j < extensions.len()
        invariant
            j <= extensions.len(),
            views == Seq::new(extensions@.len(), |j: int| extensions@[j]@),
            forall|k: int| 0 <= k < j ==> views[k] != lowered@,
        decreases extensions.len() - j,
    {
        if extensions[j] == *lowered {
            assert(views[j as int] == lowered@);
            return true;
        }
        j += 1;
    }
    false
}

/// Whether a hint names one of the languages that the renderer knows.
pub fn lang_exists(lang: &str, langs: &Vec<Syntax>) -> (found: bool)
    ensures
        found == language_known(lang@, langs@),
{
    let lowered = to_lowercase(lang);
    let mut i: usize = 0;
    while i < langs.len()
        invariant
            i <= langs.len(),
            lowered@ == lowercase(lang@),
            forall|k: int| 0 <= k < i ==> !names_language(#[trigger] langs@[k]@, lang@),
        decreases langs.len() - i,
    {
        let syntax = &langs[i];
        if to_lowercase(syntax.name.as_str()) == lowered {
            assert(names_language(langs@[i as int]@, lang@));
            return true;
        }
        if has_extension(&syntax.file_extensions, &lowered) {
            assert(names_language(langs@[i as int]@, lang@));
            return true;
        }
        i += 1;
    }
    false
}

/// Picks the language in which to render: the hint where the renderer knows
/// it, plain text otherwise.
pub fn display_language(lang: &str, langs: &Vec<Syntax>) -> (language: String)
    ensures
        language@ == rendered_language(lang@, langs@),
{
    if lang_exists(lang, langs) {
        lang.to_owned()
    } else {
        PLAIN_TEXT.to_owned()
    }
}

} // verus!
