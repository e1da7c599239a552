//! Preparing a transcript for polishing by a local language model: timestamp
//! prefixes are stripped from every line, and the cleaned transcript is put
//! into the user's prompt template.

use vstd::prelude::*;
use vstd::string::*;
use crate::text::{is_white, lemma_trim_keeps_inner_text, lemma_trim_no_line_ends, join_lines, join_lines_spec, lines_of, replace_all, replace_all_spec, split_lines, trim, trim_spec, views};

verus! {

/// The pattern of a timestamp at the start of a line, such as `[00:12]`,
/// `1:02:03` or `12:34`, with the whitespace around it.
pub const TIMESTAMP_PATTERN: &'static str = "^\\s*\\[?\\d{1,2}:\\d{2}(:\\d{2})?\\]?\\s*";

/// The placeholder in a prompt template that stands for the transcript.
pub const TRANSCRIPTION_PLACEHOLDER: &'static str = "{{transcription}}";

/// What `regex::Regex::new(pattern)` followed by `replace(haystack, rep)`
/// returns: `None` when the pattern does not compile, otherwise the haystack
/// with its leftmost-first match replaced.
pub uninterp spec fn regex_replace_first(pattern: Seq<char>, haystack: Seq<char>, rep: Seq<char>) -> Option<Seq<char>>;

/// Compiles `pattern` with `regex::Regex::new` and replaces its first match in
/// `haystack` by `rep` with `Regex::replace`. Trusted: the result is the named
/// `regex_replace_first` of the arguments, and, for an empty replacement, the
/// haystack with one contiguous piece cut out (replacen copies the text before
/// the match and after it, or borrows the haystack when nothing matches).
#[verifier::external_body]
fn regex_replace_once(pattern: &str, haystack: &str, rep: &str) -> (r: Option<String>)
    ensures
        match r {
            Some(t) => regex_replace_first(pattern@, haystack@, rep@) == Some(t@),
            None => regex_replace_first(pattern@, haystack@, rep@) is None,
        },
        rep@.len() == 0 ==> (r matches Some(t) ==> exists|i: int, j: int|
            0 <= i <= j <= haystack@.len() && t@ == haystack@.take(i) + haystack@.skip(j)),
{
    match regex::Regex::new(pattern) {
        Ok(re) => Some(re.replace(haystack, rep).into_owned()),
        Err(_) => None,
    }
}

/// A line after the timestamp removal: what is left of it, trimmed.
pub open spec fn cleaned_line(stripped: Seq<char>) -> Seq<char> {
    trim_spec(stripped)
}

/// Whether the timestamp pattern is accepted on every line of `text`.
pub open spec fn pattern_applies(text: Seq<char>) -> bool {
    forall|i: int|
        0 <= i < lines_of(text).len() ==> (#[trigger] regex_replace_first(
            TIMESTAMP_PATTERN@,
            lines_of(text)[i],
            ""@,
        )) is Some
}

/// The transcript with the timestamp prefix of each line removed, each line
/// trimmed, and the lines joined with `\n`.
pub open spec fn stripped_text(text: Seq<char>) -> Seq<char> {
    join_lines_spec(
        lines_of(text).map_values(
            |l: Seq<char>| cleaned_line(regex_replace_first(TIMESTAMP_PATTERN@, l, ""@)->Some_0),
        ),
    )
}

/// Finishes one line once its timestamp is removed: surrounding whitespace
/// goes.
pub fn clean_line(stripped: &str) -> (r: String)
    ensures
        r@ == cleaned_line(stripped@),
{
    trim(stripped)
}

/// Strips timestamp prefixes from every line of a transcript and trims the
/// lines. `None` exactly when the regex engine refuses the pattern on a line.
pub fn strip_timestamps(text: &str) -> (r: Option<String>)
    ensures
        r is Some <==> pattern_applies(text@),
        r matches Some(s) ==> s@ == stripped_text(text@),
{
    let lines = split_lines(text);
    let n = lines.len();
    let mut cleaned: Vec<String> = Vec::new();
    let ghost ls = lines_of(text@);
    let ghost f = |l: Seq<char>| cleaned_line(regex_replace_first(TIMESTAMP_PATTERN@, l, ""@)->Some_0);
    let mut i: usize = 0;
    while i < n
        invariant
            n == lines.len(),
            views(lines@) == ls,
            ls == lines_of(text@),
            f == (|l: Seq<char>| cleaned_line(regex_replace_first(TIMESTAMP_PATTERN@, l, ""@)->Some_0)),
            i <= n,
            cleaned.len() == i,
            forall|k: int| 0 <= k < i ==> (#[trigger] regex_replace_first(
                TIMESTAMP_PATTERN@,
                ls[k],
                ""@,
            )) is Some,
            views(cleaned@) =~= ls.take(i as int).map_values(f),
        decreases n - i,
    {
        proof {
            assert(lines@[i as int]@ == ls[i as int]);
        }
        match regex_replace_once(TIMESTAMP_PATTERN, lines[i].as_str(), "") {
            Some(stripped) => {
                let line = clean_line(stripped.as_str());
                let ghost before = cleaned@;
                cleaned.push(line);
                proof {
                    assert(ls.take(i + 1).map_values(f) =~= ls.take(i as int).map_values(f).push(
                        f(ls[i as int]),
                    ));
                    assert(views(cleaned@) =~= views(before).push(line@));
                }
            },
            None => {
                proof {
                    assert(!pattern_applies(text@));
                }
                return None;
            },
        }
        i = i + 1;
    }
    proof {
        assert(ls.take(n as int) =~= ls);
    }
    let joined = join_lines(&cleaned);
    Some(joined)
}

/// The prompt sent for polishing: the template with every placeholder
/// replaced by the cleaned transcript.
pub open spec fn filled_prompt(template: Seq<char>, clean: Seq<char>) -> Seq<char> {
    replace_all_spec(template, TRANSCRIPTION_PLACEHOLDER@, clean)
}

/// Puts the cleaned transcript into the prompt template.
pub fn fill_prompt(template: &str, clean: &str) -> (r: String)
    ensures
        r@ == filled_prompt(template@, clean@),
{
    proof {
        reveal_strlit("{{transcription}}");
    }
    replace_all(template, TRANSCRIPTION_PLACEHOLDER, clean)
}

/// The body of a non-streaming generation request to the local model server.
pub struct GenerateRequest {
    pub model: String,
    pub prompt: String,
    pub stream: bool,
}

/// The request that polishes `text` with `model` and `prompt_template`;
/// `None` when the timestamp pattern is refused.
pub fn polish_request(text: &str, model: &str, prompt_template: &str) -> (r: Option<GenerateRequest>)
    ensures
        r is Some <==> pattern_applies(text@),
        r matches Some(req) ==> {
            &&& req.model@ == model@
            &&& req.prompt@ == filled_prompt(prompt_template@, stripped_text(text@))
            &&& !req.stream
        },
{
    match strip_timestamps(text) {
        Some(clean) => {
            let prompt = fill_prompt(prompt_template, clean.as_str());
            Some(GenerateRequest { model: String::from_str(model), prompt, stream: false })
        },
        None => None,
    }
}

/// Whether `pat` occurs in `s` starting at some position.
pub open spec fn occurs_in(pat: Seq<char>, s: Seq<char>) -> bool {
    exists|i: int| 0 <= i && i + pat.len() <= s.len() && #[trigger] s.subrange(i, i + pat.len()) == pat
}

proof fn lemma_replace_absent(s: Seq<char>, pat: Seq<char>, rep: Seq<char>)
    requires
        pat.len() > 0,
        !occurs_in(pat, s),
    ensures
        replace_all_spec(s, pat, rep) == s,
    decreases s.len(),
{
    if s.len() >= pat.len() {
        assert(s.take(pat.len() as int) =~= s.subrange(0, pat.len() as int));
        assert(!(s.subrange(0int, 0int + pat.len()) == pat));
        assert(s.take(pat.len() as int) != pat);
        let t = s.drop_first();
        assert forall|i: int| 0 <= i && i + pat.len() <= t.len() implies #[trigger] t.subrange(
            i,
            i + pat.len(),
        ) != pat by {
            assert(t.subrange(i, i + pat.len()) =~= s.subrange(i + 1, i + 1 + pat.len()));
        }
        lemma_replace_absent(t, pat, rep);
        assert(seq![s[0]] + t =~= s);
    }
}

/// A prompt template without the placeholder is sent unchanged.
pub proof fn lemma_template_without_placeholder(template: Seq<char>, clean: Seq<char>)
    requires
        !occurs_in(TRANSCRIPTION_PLACEHOLDER@, template),
    ensures
        filled_prompt(template, clean) == template,
{
    reveal_strlit("{{transcription}}");
    lemma_replace_absent(template, TRANSCRIPTION_PLACEHOLDER@, clean);
}

/// A template that is just the placeholder becomes the cleaned transcript;
/// text around a placeholder is kept as it is.
pub proof fn lemma_placeholder_replaced(before: Seq<char>, after: Seq<char>, clean: Seq<char>)
    requires
        !occurs_in(TRANSCRIPTION_PLACEHOLDER@, before + TRANSCRIPTION_PLACEHOLDER@.drop_last()),
        !occurs_in(TRANSCRIPTION_PLACEHOLDER@, after),
    ensures
        filled_prompt(TRANSCRIPTION_PLACEHOLDER@, clean) == clean,
        filled_prompt(before + TRANSCRIPTION_PLACEHOLDER@ + after, clean) == before + clean + after,
{
    reveal_strlit("{{transcription}}");
    let pat = TRANSCRIPTION_PLACEHOLDER@;
    assert(pat.take(pat.len() as int) =~= pat);
    assert(pat.skip(pat.len() as int) =~= Seq::<char>::empty());
    assert(replace_all_spec(Seq::<char>::empty(), pat, clean) == Seq::<char>::empty());
    assert(clean + Seq::<char>::empty() =~= clean);
    lemma_replace_prefix_free(before, after, clean);
}

proof fn lemma_replace_prefix_free(before: Seq<char>, after: Seq<char>, clean: Seq<char>)
    requires
        TRANSCRIPTION_PLACEHOLDER@.len() > 0,
        !occurs_in(TRANSCRIPTION_PLACEHOLDER@, before + TRANSCRIPTION_PLACEHOLDER@.drop_last()),
        !occurs_in(TRANSCRIPTION_PLACEHOLDER@, after),
    ensures
        replace_all_spec(before + TRANSCRIPTION_PLACEHOLDER@ + after, TRANSCRIPTION_PLACEHOLDER@, clean)
            == before + clean + after,
    decreases before.len(),
{
    let pat = TRANSCRIPTION_PLACEHOLDER@;
    let s = before + pat + after;
    let m = pat.len() as int;
    if before.len() == 0 {
        assert(s =~= pat + after);
        assert(s.take(m) =~= pat);
        assert(s.skip(m) =~= after);
        lemma_replace_absent(after, pat, clean);
        assert(before + clean + after =~= clean + after);
    } else {
        let w = before + pat.drop_last();
        assert(s.take(m) =~= w.subrange(0, m));
        assert(!(w.subrange(0int, 0int + pat.len()) == pat));
        assert(s.take(m) != pat);
        let b2 = before.drop_first();
        assert forall|i: int| 0 <= i && i + m <= (b2 + pat.drop_last()).len() implies #[trigger] (b2
            + pat.drop_last()).subrange(i, i + m) != pat by {
            assert((b2 + pat.drop_last()).subrange(i, i + m) =~= w.subrange(i + 1, i + 1 + m));
        }
        lemma_replace_prefix_free(b2, after, clean);
        assert(s.drop_first() =~= b2 + pat + after);
        assert(seq![s[0]] + (b2 + clean + after) =~= before + clean + after);
    }
}

/// Cleaning a line only removes the whitespace around it: the result is a
/// contiguous piece of the line with only whitespace before and after it,
/// so every other character (punctuation and the words after it included)
/// is kept in order; and it does not start or end with a carriage return.
pub proof fn lemma_clean_line_keeps_words(s: Seq<char>)
    ensures
        exists|i: int, j: int|
            0 <= i <= j <= s.len() && cleaned_line(s) == s.subrange(i, j) && (forall|k: int|
                0 <= k < i ==> is_white(#[trigger] s[k])) && (forall|k: int|
                j <= k < s.len() ==> is_white(#[trigger] s[k])) && (i < j ==> !is_white(s[i])
                && !is_white(s[j - 1])),
        cleaned_line(s).len() > 0 ==> cleaned_line(s)[0] != '\r' && cleaned_line(s).last() != '\r',
{
    lemma_trim_keeps_inner_text(s);
    lemma_trim_no_line_ends(s);
}

} // verus!
