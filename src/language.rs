use vstd::prelude::*;

verus! {

/// The coarse language that the active keyboard input source stands for.
#[derive(Clone, Copy, Debug, PartialEq, Eq, Structural)]
pub enum LanguageTag {
    Ko,
    En,
}

pub open spec fn tag_code(t: LanguageTag) -> Seq<char> {
    match t {
        LanguageTag::Ko => "ko"@,
        LanguageTag::En => "en"@,
    }
}

impl LanguageTag {
    /// The tag as the presentation layer receives it: `"ko"` or `"en"`.
    pub fn code(&self) -> (r: String)
        ensures
            r@ == tag_code(*self),
    {
        match self {
            LanguageTag::Ko => String::from_str("ko"),
            LanguageTag::En => String::from_str("en"),
        }
    }
}

/// `pat` occurs in `s` starting at index `i`.
pub open spec fn occurs_at(s: Seq<char>, pat: Seq<char>, i: int) -> bool {
    0 <= i && i + pat.len() <= s.len() && s.subrange(i, i + pat.len()) == pat
}

pub open spec fn has_substring(s: Seq<char>, pat: Seq<char>) -> bool {
    exists|i: int| occurs_at(s, pat, i)
}

/// The classification rule on lower-cased identifier and display name: a
/// Korean input source is recognised by its romanized identifier, its
/// layout variant, or its name in Korean script.
pub open spec fn is_korean_source(lower_id: Seq<char>, lower_name: Seq<char>) -> bool {
    ||| has_substring(lower_id, "korean"@)
    ||| has_substring(lower_id, "hangul"@)
    ||| has_substring(lower_id, "2set"@)
    ||| has_substring(lower_name, "두벌식"@)
    ||| has_substring(lower_name, "korean"@)
    ||| has_substring(lower_name, "한글"@)
}

pub open spec fn language_of(lower_id: Seq<char>, lower_name: Seq<char>) -> LanguageTag {
    if is_korean_source(lower_id, lower_name) {
        LanguageTag::Ko
    } else {
        LanguageTag::En
    }
}

/// Whether `pat` occurs in `s` at character index `i`.
fn matches_at(s: &str, pat: &str, i: usize) -> (r: bool)
    requires
        i + pat@.len() <= s@.len() <= usize::MAX,
    ensures
        r == occurs_at(s@, pat@, i as int),
{
    let m = pat.unicode_len();
    let mut j: usize = 0;
    while j < m
        invariant
            m == pat@.len(),
            i + m <= s@.len() <= usize::MAX,
            j <= m,
            forall|k: int| 0 <= k < j ==> s@[i + k] == pat@[k],
        decreases m - j,
    {
        if s.get_char(i + j) != pat.get_char(j) {
            assert(s@.subrange(i as int, i + m)[j as int] != pat@[j as int]);
            return false;
        }
        j = j + 1;
    }
    assert(s@.subrange(i as int, i + m) =~= pat@);
    true
}

/// Whether `pat` occurs anywhere in `s`.
pub fn contains_text(s: &str, pat: &str) -> (r: bool)
    ensures
        r == has_substring(s@, pat@),
{
    let n = s.unicode_len();
    let m = pat.unicode_len();
    if m > n {
        assert(forall|i: int| !occurs_at(s@, pat@, i));
        return false;
    }
    let last = n - m;
    let mut i: usize = 0;
    loop
        invariant
            n == s@.len(),
            m == pat@.len(),
            last == n - m,
            i <= last,
            forall|k: int| 0 <= k < i ==> !occurs_at(s@, pat@, k),
        decreases last - i,
    {
        if matches_at(s, pat, i) {
            return true;
        }
        if i == last {
            assert(forall|k: int| !occurs_at(s@, pat@, k));
            return false;
        }
        i = i + 1;
    }
}

/// Classifies an input source by its lower-cased identifier and display
/// name.
pub fn classify_input_source(lower_id: &str, lower_name: &str) -> (r: LanguageTag)
    ensures
        r == language_of(lower_id@, lower_name@),
{
    if contains_text(lower_id, "korean") || contains_text(lower_id, "hangul") || contains_text(
        lower_id,
        "2set",
    ) || contains_text(lower_name, "두벌식") || contains_text(lower_name, "korean")
        || contains_text(lower_name, "한글") {
        LanguageTag::Ko
    } else {
        LanguageTag::En
    }
}

/// What `str::to_lowercase` gives for a string.
pub uninterp spec fn lower_of(s: Seq<char>) -> Seq<char>;

/// Relies on std's `str::to_lowercase`, whose result depends on the
/// characters of its argument alone.
#[verifier::external_body]
fn lowercase(s: &str) -> (r: String)
    ensures
        r@ == lower_of(s@),
{
    s.to_lowercase()
}

/// The two properties read from the active keyboard input source; each is
/// `None` where the source does not provide it.
pub struct InputSourceNames {
    pub id: Option<String>,
    pub name: Option<String>,
}

/// A property as the diagnostic message shows it.
pub open spec fn shown(p: Option<String>) -> Seq<char> {
    match p {
        Some(t) => t@,
        None => "None"@,
    }
}

pub open spec fn diagnostic(id: Seq<char>, name: Seq<char>) -> Seq<char> {
    "ID=["@ + id + "] Name=["@ + name + "]"@
}

fn shown_text(p: &Option<String>) -> (r: &str)
    ensures
        r@ == shown(*p),
{
    match p {
        Some(t) => t.as_str(),
        None => "None",
    }
}

/// The language tag and a diagnostic message for the active input source,
/// or for its absence (`None`). The tag is `"ko"` where the lower-cased
/// identifier or display name marks a Korean input method, else `"en"`.
pub fn get_mac_input_language(source: Option<InputSourceNames>) -> (r: (String, String))
    ensures
        source is None ==> r.0@ == "en"@ && r.1@ == "NULL"@,
        source matches Some(names) ==> {
            &&& r.0@ == tag_code(
                language_of(lower_of(shown(names.id)), lower_of(shown(names.name))),
            )
            &&& r.1@ == diagnostic(shown(names.id), shown(names.name))
        },
{
    match source {
        None => (String::from_str("en"), String::from_str("NULL")),
        Some(names) => {
            let id_text = shown_text(&names.id);
            let name_text = shown_text(&names.name);
            let mut message = String::from_str("ID=[");
            message.append(id_text);
            message.append("] Name=[");
            message.append(name_text);
            message.append("]");
            let lower_id = lowercase(id_text);
            let lower_name = lowercase(name_text);
            let tag = classify_input_source(lower_id.as_str(), lower_name.as_str());
            (tag.code(), message)
        },
    }
}

} // verus!
