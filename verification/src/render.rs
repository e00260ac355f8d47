//! Cause-chain rendering: the mathematical description of the rendered text
//! and the executable routine that produces it.

use vstd::prelude::*;

verus! {

/// The default separator header, used whenever no configuration value is
/// supplied (the key is unset, or its value is not a valid string).
pub open spec fn default_sep() -> Seq<char> {
    "from =>"@
}

/// The separator header a render call actually uses: the configured value
/// verbatim when one is supplied, the default otherwise.
pub open spec fn resolve_sep(tab: Option<Seq<char>>) -> Seq<char> {
    match tab {
        Some(s) => s,
        None => default_sep(),
    }
}

/// The view of an optional borrowed string.
pub open spec fn opt_str_view(tab: Option<&str>) -> Option<Seq<char>> {
    match tab {
        Some(s) => Some(s@),
        None => None,
    }
}

/// One rendered cause line: the separator header, a single space, the cause's
/// message, and a line break.
pub open spec fn cause_line(msg: Seq<char>, sep: Seq<char>) -> Seq<char> {
    sep + seq![' '] + msg + seq!['\n']
}

/// All rendered cause lines, nearest cause first.
pub open spec fn cause_lines(causes: Seq<Seq<char>>, sep: Seq<char>) -> Seq<char>
    decreases causes.len(),
{
    if causes.len() == 0 {
        Seq::empty()
    } else {
        cause_line(causes[0], sep) + cause_lines(causes.drop_first(), sep)
    }
}

/// The complete rendering: the top message and a line break, then one line
/// per cause. Every line, the last included, ends with a line break.
pub open spec fn rendered(msg: Seq<char>, causes: Seq<Seq<char>>, sep: Seq<char>) -> Seq<char> {
    msg + seq!['\n'] + cause_lines(causes, sep)
}

/// Appending one more cause at the far end of the chain appends exactly one
/// more rendered line.
pub proof fn lemma_cause_lines_snoc(causes: Seq<Seq<char>>, last: Seq<char>, sep: Seq<char>)
    ensures
        cause_lines(causes.push(last), sep) == cause_lines(causes, sep) + cause_line(last, sep),
    decreases causes.len(),
{
    if causes.len() == 0 {
        assert(causes.push(last)[0] == last);
        assert(causes.push(last).drop_first() =~= Seq::<Seq<char>>::empty());
        assert(cause_lines(causes.push(last), sep) == cause_line(last, sep) + cause_lines(
            Seq::<Seq<char>>::empty(),
            sep,
        ));
        assert(cause_lines(causes.push(last), sep) =~= cause_lines(causes, sep) + cause_line(
            last,
            sep,
        ));
    } else {
        lemma_cause_lines_snoc(causes.drop_first(), last, sep);
        assert(causes.push(last).drop_first() =~= causes.drop_first().push(last));
        assert(cause_lines(causes.push(last), sep) =~= cause_lines(causes, sep) + cause_line(
            last,
            sep,
        ));
    }
}

/// An error with no cause at all renders as exactly its message followed by
/// one line break: the cause loop never runs.
pub proof fn lemma_render_no_cause(msg: Seq<char>, sep: Seq<char>)
    ensures
        rendered(msg, Seq::empty(), sep) == msg + seq!['\n'],
{
    assert(rendered(msg, Seq::empty(), sep) =~= msg + seq!['\n']);
}

/// When the configuration key is unset, the separator is exactly the default
/// header `from =>`.
pub proof fn lemma_unset_uses_default()
    ensures
        resolve_sep(None) == "from =>"@,
{
}

/// Cause lines appear nearest-to-furthest: a rendering with at least one
/// cause is the rendering without the furthest cause, followed by one further
/// line for the furthest cause.
pub proof fn lemma_render_last_line(msg: Seq<char>, causes: Seq<Seq<char>>, sep: Seq<char>)
    requires
        causes.len() >= 1,
    ensures
        rendered(msg, causes, sep) == rendered(msg, causes.drop_last(), sep) + cause_line(
            causes.last(),
            sep,
        ),
{
    lemma_cause_lines_snoc(causes.drop_last(), causes.last(), sep);
    assert(causes.drop_last().push(causes.last()) =~= causes);
    assert(rendered(msg, causes, sep) =~= rendered(msg, causes.drop_last(), sep) + cause_line(
        causes.last(),
        sep,
    ));
}

/// The number of occurrences of a character in a sequence.
pub open spec fn count_char(s: Seq<char>, ch: char) -> nat
    decreases s.len(),
{
    if s.len() == 0 {
        0
    } else {
        count_char(s.drop_first(), ch) + (if s[0] == ch {
            1nat
        } else {
            0nat
        })
    }
}

proof fn lemma_count_char_add(a: Seq<char>, b: Seq<char>, ch: char)
    ensures
        count_char(a + b, ch) == count_char(a, ch) + count_char(b, ch),
    decreases a.len(),
{
    if a.len() == 0 {
        assert(a + b =~= b);
    } else {
        lemma_count_char_add(a.drop_first(), b, ch);
        assert((a + b).drop_first() =~= a.drop_first() + b);
        assert((a + b)[0] == a[0]);
    }
}

proof fn lemma_count_char_single(ch: char, other: char)
    ensures
        count_char(seq![ch], other) == if ch == other {
            1nat
        } else {
            0nat
        },
{
    assert(seq![ch].len() == 1);
    assert(seq![ch][0] == ch);
    assert(seq![ch].drop_first() =~= Seq::<char>::empty());
    assert(count_char(Seq::<char>::empty(), other) == 0);
}

proof fn lemma_cause_lines_break_count(causes: Seq<Seq<char>>, sep: Seq<char>)
    requires
        count_char(sep, '\n') == 0,
        forall|i: int| 0 <= i < causes.len() ==> count_char(#[trigger] causes[i], '\n') == 0,
    ensures
        count_char(cause_lines(causes, sep), '\n') == causes.len(),
    decreases causes.len(),
{
    if causes.len() == 0 {
    } else {
        lemma_cause_lines_break_count(causes.drop_first(), sep);
        lemma_count_char_add(cause_line(causes[0], sep), cause_lines(causes.drop_first(), sep), '\n');
        lemma_count_char_add(sep + seq![' '] + causes[0], seq!['\n'], '\n');
        lemma_count_char_add(sep + seq![' '], causes[0], '\n');
        lemma_count_char_add(sep, seq![' '], '\n');
        lemma_count_char_single(' ', '\n');
        lemma_count_char_single('\n', '\n');
    }
}

/// A cause chain of length `n` renders as `n + 1` lines: one line break for
/// the top message and one per cause, provided neither the messages nor the
/// separator contain a line break of their own.
pub proof fn lemma_render_line_count(msg: Seq<char>, causes: Seq<Seq<char>>, sep: Seq<char>)
    requires
        count_char(msg, '\n') == 0,
        count_char(sep, '\n') == 0,
        forall|i: int| 0 <= i < causes.len() ==> count_char(#[trigger] causes[i], '\n') == 0,
    ensures
        count_char(rendered(msg, causes, sep), '\n') == causes.len() + 1,
{
    lemma_cause_lines_break_count(causes, sep);
    lemma_count_char_add(msg + seq!['\n'], cause_lines(causes, sep), '\n');
    lemma_count_char_add(msg, seq!['\n'], '\n');
    lemma_count_char_single('\n', '\n');
}

proof fn lemma_cause_lines_len_grows(causes: Seq<Seq<char>>, s1: Seq<char>, s2: Seq<char>)
    requires
        s1.len() < s2.len(),
    ensures
        causes.len() == 0 ==> cause_lines(causes, s1).len() == cause_lines(causes, s2).len(),
        causes.len() >= 1 ==> cause_lines(causes, s1).len() < cause_lines(causes, s2).len(),
    decreases causes.len(),
{
    if causes.len() == 0 {
    } else {
        lemma_cause_lines_len_grows(causes.drop_first(), s1, s2);
    }
}

/// The separator is read fresh at each render call and is not cached: two
/// renders of the same message and cause chain with different separators
/// produce different text whenever at least one cause line carries the
/// separator.
pub proof fn lemma_render_uses_given_sep(
    msg: Seq<char>,
    causes: Seq<Seq<char>>,
    s1: Seq<char>,
    s2: Seq<char>,
)
    requires
        causes.len() >= 1,
        s1 != s2,
    ensures
        rendered(msg, causes, s1) != rendered(msg, causes, s2),
{
    let r1 = rendered(msg, causes, s1);
    let r2 = rendered(msg, causes, s2);
    if s1.len() < s2.len() {
        lemma_cause_lines_len_grows(causes, s1, s2);
        assert(r1.len() < r2.len());
    } else if s2.len() < s1.len() {
        lemma_cause_lines_len_grows(causes, s2, s1);
        assert(r2.len() < r1.len());
    } else {
        if forall|j: int| 0 <= j < s1.len() ==> s1[j] == #[trigger] s2[j] {
            assert(s1 =~= s2);
            assert(false);
        }
        let j = choose|j: int| 0 <= j < s1.len() && s1[j] != #[trigger] s2[j];
        let k = msg.len() + 1 + j;
        assert(r1[k as int] == cause_lines(causes, s1)[j]);
        assert(cause_lines(causes, s1)[j] == cause_line(causes[0], s1)[j]);
        assert(cause_line(causes[0], s1)[j] == s1[j]);
        assert(r2[k as int] == cause_lines(causes, s2)[j]);
        assert(cause_lines(causes, s2)[j] == cause_line(causes[0], s2)[j]);
        assert(cause_line(causes[0], s2)[j] == s2[j]);
        assert(r1[k as int] != r2[k as int]);
    }
}

/// Renders a message, its cause-chain messages (nearest first) and an
/// optional configured separator into the display text: the message, then
/// each cause on its own line prefixed by the resolved separator and a space,
/// every line ending with a line break.
pub fn render_parts(message: &str, causes: &Vec<String>, tab: Option<&str>) -> (out: String)
    ensures
        out@ == rendered(
            message@,
            causes@.map_values(|c: String| c@),
            resolve_sep(opt_str_view(tab)),
        ),
{
    let ghost cvs = causes@.map_values(|c: String| c@);
    let sep: &str = match tab {
        Some(t) => t,
        None => "from =>",
    };
    proof {
        assert(sep@ == resolve_sep(opt_str_view(tab)));
        reveal_strlit("\n");
        reveal_strlit(" ");
    }
    let mut out = String::from_str(message);
    out.append("\n");
    let mut i: usize = 0;
    while i < causes.len()
        invariant
            i <= causes.len(),
            cvs == causes@.map_values(|c: String| c@),
            sep@ == resolve_sep(opt_str_view(tab)),
            "\n"@ == seq!['\n'],
            " "@ == seq![' '],
            out@ == rendered(message@, cvs.take(i as int), sep@),
        decreases causes.len() - i,
    {
        out.append(sep);
        out.append(" ");
        out.append(causes[i].as_str());
        out.append("\n");
        proof {
            assert(cvs.take(i as int).push(cvs[i as int]) =~= cvs.take(i + 1 as int));
            lemma_cause_lines_snoc(cvs.take(i as int), cvs[i as int], sep@);
            assert(out@ =~= rendered(message@, cvs.take(i + 1 as int), sep@));
        }
        i += 1;
    }
    proof {
        assert(cvs.take(causes@.len() as int) =~= cvs);
    }
    out
}

} // verus!
