//! The model-visible notice that a unified exec process, which had yielded,
//! has completed.

use vstd::prelude::*;
use vstd::string::StringExecFns;

verus! {

/// The token budget of a completion notice.
pub const EXEC_COMPLETION_TOKENS: usize = 1000;

/// Tokens set aside for the truncation marker, which is added outside the
/// requested content budget.
pub const TRUNCATION_MARKER_TOKEN_RESERVE: usize = 32;

/// The content budget handed to truncation.
pub fn completion_token_budget() -> (budget: usize)
    ensures
        budget == EXEC_COMPLETION_TOKENS - TRUNCATION_MARKER_TOKEN_RESERVE,
        budget == 968,
{
    EXEC_COMPLETION_TOKENS - TRUNCATION_MARKER_TOKEN_RESERVE
}

/// The decimal digits of a natural number.
pub open spec fn decimal_digits(n: nat) -> Seq<char>
    decreases n,
{
    if n < 10 {
        seq![('0' as int + n) as char]
    } else {
        decimal_digits(n / 10).push(('0' as int + n % 10) as char)
    }
}

/// The number a string of decimal digits denotes.
pub open spec fn digits_value(digits: Seq<char>) -> int
    decreases digits.len(),
{
    if digits.len() == 0 {
        0
    } else {
        digits_value(digits.drop_last()) * 10 + (digits.last() as int - '0' as int)
    }
}

/// The decimal digits of a number are digits, without a leading zero, and
/// read back in base ten they give the number.
pub proof fn lemma_decimal_digits_read_back(n: nat)
    ensures
        decimal_digits(n).len() > 0,
        forall|i: int|
            0 <= i < decimal_digits(n).len() ==> '0' <= #[trigger] decimal_digits(n)[i] <= '9',
        n > 0 ==> decimal_digits(n)[0] != '0',
        digits_value(decimal_digits(n)) == n,
    decreases n,
{
    if n >= 10 {
        let high = (n / 10) as nat;
        lemma_decimal_digits_read_back(high);
        let digits = decimal_digits(n);
        assert(digits.drop_last() == decimal_digits(high));
        assert(digits.last() as int - '0' as int == n % 10);
        assert(high * 10 + n % 10 == n) by (nonlinear_arith)
            requires
                high == n / 10,
        {
        }
        assert(digits_value(digits) == digits_value(decimal_digits(high)) * 10 + n % 10);
    } else {
        let digits = decimal_digits(n);
        assert(digits.drop_last() =~= Seq::<char>::empty());
        assert(digits.last() as int - '0' as int == n);
        assert(digits_value(digits) == digits_value(Seq::<char>::empty()) * 10 + n);
    }
}

/// The decimal text of an integer is a minus sign exactly for a negative
/// number, followed by the digits of its magnitude.
pub proof fn lemma_decimal_text_read_back(n: int)
    ensures
        n < 0 ==> decimal_text(n)[0] == '-' && digits_value(decimal_text(n).skip(1)) == -n,
        n >= 0 ==> digits_value(decimal_text(n)) == n && decimal_text(n)[0] != '-',
{
    if n < 0 {
        lemma_decimal_digits_read_back((-n) as nat);
        assert(decimal_text(n).skip(1) == decimal_digits((-n) as nat));
    } else {
        lemma_decimal_digits_read_back(n as nat);
    }
}

/// The decimal text of an integer, with a leading `-` when it is negative.
pub open spec fn decimal_text(n: int) -> Seq<char> {
    if n < 0 {
        seq!['-'] + decimal_digits((-n) as nat)
    } else {
        decimal_digits(n as nat)
    }
}

fn digit_text(d: u64) -> (text: &'static str)
    requires
        d < 10,
    ensures
        text@ == seq![('0' as int + d) as char],
{
    proof {
        reveal_strlit("0");
        reveal_strlit("1");
        reveal_strlit("2");
        reveal_strlit("3");
        reveal_strlit("4");
        reveal_strlit("5");
        reveal_strlit("6");
        reveal_strlit("7");
        reveal_strlit("8");
        reveal_strlit("9");
    }
    if d == 0 {
        "0"
    } else if d == 1 {
        "1"
    } else if d == 2 {
        "2"
    } else if d == 3 {
        "3"
    } else if d == 4 {
        "4"
    } else if d == 5 {
        "5"
    } else if d == 6 {
        "6"
    } else if d == 7 {
        "7"
    } else if d == 8 {
        "8"
    } else {
        "9"
    }
}

fn append_digits(text: &mut String, n: u64)
    ensures
        final(text)@ == old(text)@ + decimal_digits(n as nat),
    decreases n,
{
    if n >= 10 {
        append_digits(text, n / 10);
    }
    text.append(digit_text(n % 10));
    proof {
        if n >= 10 {
            assert(decimal_digits(n as nat) == decimal_digits((n / 10) as nat).push(
                ('0' as int + n % 10) as char,
            ));
        }
    }
}

/// The decimal text of an `i32`: an optional minus sign followed by the
/// digits, without leading zeros.
fn decimal_i32(value: i32) -> (text: String)
    ensures
        text@ == decimal_text(value as int),
{
    let mut text = String::new();
    if value < 0 {
        text.append("-");
        proof {
            reveal_strlit("-");
        }
        let magnitude: u64 = (0i64 - value as i64) as u64;
        append_digits(&mut text, magnitude);
    } else {
        append_digits(&mut text, value as u64);
    }
    text
}

/// Words joined with single spaces.
pub open spec fn join_spaces(words: Seq<Seq<char>>) -> Seq<char>
    decreases words.len(),
{
    if words.len() == 0 {
        Seq::empty()
    } else if words.len() == 1 {
        words[0]
    } else {
        join_spaces(words.drop_last()) + seq![' '] + words.last()
    }
}

pub open spec fn string_views(words: Seq<String>) -> Seq<Seq<char>> {
    words.map_values(|w: String| w@)
}

/// The command's words joined with single spaces.
pub fn join_command(command: &[String]) -> (joined: String)
    ensures
        joined@ == join_spaces(string_views(command@)),
{
    let ghost words = string_views(command@);
    let mut joined = String::new();
    let mut i: usize = 0;
    while i < command.len()
        invariant
            i <= command@.len(),
            words == string_views(command@),
            joined@ == join_spaces(words.take(i as int)),
        decreases command@.len() - i,
    {
        if i > 0 {
            joined.append(" ");
        }
        joined.append(command[i].as_str());
        proof {
            reveal_strlit(" ");
            let next = words.take(i + 1);
            assert(next.drop_last() == words.take(i as int));
            assert(next.last() == command@[i as int]@);
            if i == 0 {
                assert(join_spaces(next) == command@[0]@);
            }
        }
        i = i + 1;
    }
    assert(words.take(command@.len() as int) == words);
    joined
}

/// The untruncated completion notice.
pub open spec fn completion_envelope(
    call_id: Seq<char>,
    process_id: int,
    command: Seq<Seq<char>>,
    exit_code: int,
    output: Seq<char>,
) -> Seq<char> {
    "<exec-command-completed call-id=\""@ + call_id + "\" process-id=\""@ + decimal_text(process_id)
        + "\" exit-code=\""@ + decimal_text(exit_code) + "\">\n<command>"@ + join_spaces(command)
        + "</command>\n<output>\n"@ + output + "\n</output>\n</exec-command-completed>"@
}

/// Builds the untruncated notice for a completed process: its call, process
/// and exit code as attributes, its command line, and its output.
pub fn exec_completion_envelope(
    call_id: &str,
    process_id: i32,
    command: &[String],
    exit_code: i32,
    output: &str,
) -> (envelope: String)
    ensures
        envelope@ == completion_envelope(
            call_id@,
            process_id as int,
            string_views(command@),
            exit_code as int,
            output@,
        ),
{
    let command = join_command(command);
    let process = decimal_i32(process_id);
    let exit = decimal_i32(exit_code);
    let mut envelope = String::from_str("<exec-command-completed call-id=\"");
    envelope.append(call_id);
    envelope.append("\" process-id=\"");
    envelope.append(process.as_str());
    envelope.append("\" exit-code=\"");
    envelope.append(exit.as_str());
    envelope.append("\">\n<command>");
    envelope.append(command.as_str());
    envelope.append("</command>\n<output>\n");
    envelope.append(output);
    envelope.append("\n</output>\n</exec-command-completed>");
    envelope
}

/// Model-visible completion of a unified exec process that previously yielded.
pub struct ExecCompletion {
    body: String,
}

impl ExecCompletion {
    pub closed spec fn body_view(&self) -> Seq<char> {
        self.body@
    }

    /// A completion whose (already bounded) notice text is `body`.
    pub fn with_body(body: String) -> (completion: Self)
        ensures
            completion.body_view() == body@,
    {
        ExecCompletion { body }
    }

    /// The role of the message the notice is delivered in.
    pub fn role(&self) -> (role: &'static str)
        ensures
            role@ == "user"@,
    {
        "user"
    }

    /// The content kind that identifies the notice.
    pub fn content_kind(&self) -> (kind: String)
        ensures
            kind@ == "exec.completion"@,
    {
        String::from_str("exec.completion")
    }

    /// The notice carries no surrounding markers.
    pub fn markers(&self) -> (markers: (&'static str, &'static str))
        ensures
            markers.0@ == ""@,
            markers.1@ == ""@,
    {
        Self::type_markers()
    }

    pub fn type_markers() -> (markers: (&'static str, &'static str))
        ensures
            markers.0@ == ""@,
            markers.1@ == ""@,
    {
        ("", "")
    }

    /// The notice text.
    pub fn body(&self) -> (body: String)
        ensures
            body@ == self.body_view(),
    {
        self.body.clone()
    }
}

} // verus!
