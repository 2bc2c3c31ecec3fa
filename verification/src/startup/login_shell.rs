//! The environment of a login shell, which the application takes on when it was not started from
//! one.
use vstd::prelude::*;

use crate::text::{chars_of, find};

verus! {

/// What stands in the output of the shell before its environment.
pub const MARKER: &'static str = "ZED_LOGIN_SHELL_START";

/// What to say when no shell is known.
pub const NO_SHELL: &'static str =
    "SHELL environment variable is not assigned so we can't source login environment variables";

/// What to say when the shell does not start.
pub const SHELL_NOT_STARTED: &'static str =
    "failed to spawn login shell to source login environment variables";

/// What to say when the shell fails.
pub const SHELL_FAILED: &'static str = "login shell exited with error";

/// What the shell is to do: go home, so that what hooks into that adjusts the environment, then
/// write the marker and the environment.
pub open spec fn shell_command(home: Option<Seq<char>>) -> Seq<char> {
    let prefix = match home {
        Some(home) => "cd '"@ + home + "';"@,
        None => Seq::empty(),
    };
    prefix + "echo "@ + MARKER@ + "; /usr/bin/env -0; exit 0;"@
}

/// What the shell is to do. Without the `exit 0` it would keep signals from this process.
pub fn login_shell_command(home: Option<String>) -> (r: String)
    ensures
        r@ == shell_command(
            match home {
                Some(home) => Some(home@),
                None => None,
            },
        ),
{
    let mut command = String::new();
    match home {
        Some(home) => {
            command.append("cd '");
            command.append(home.as_str());
            command.append("';");
            assert(command@ =~= "cd '"@ + home@ + "';"@);
        },
        None => {
            assert(command@ =~= Seq::empty());
        },
    }
    let ghost prefix = command@;
    command.append("echo ");
    command.append(MARKER);
    command.append("; /usr/bin/env -0; exit 0;");
    assert(command@ =~= prefix + "echo "@ + MARKER@ + "; /usr/bin/env -0; exit 0;"@);
    command
}

/// Where a character first is in a text, or the length of the text.
pub open spec fn first_at(s: Seq<char>, c: char) -> int
    decreases s.len(),
{
    if s.len() == 0 || s[0] == c {
        0
    } else {
        1 + first_at(s.skip(1), c)
    }
}

/// A character first is where it is but is nowhere before.
proof fn lemma_first_at(s: Seq<char>, c: char, at: int)
    requires
        0 <= at <= s.len(),
        at < s.len() ==> s[at] == c,
        forall|i: int| 0 <= i < at ==> s[i] != c,
    ensures
        first_at(s, c) == at,
    decreases s.len(),
{
    if at > 0 {
        let rest = s.skip(1);
        assert forall|i: int| 0 <= i < at - 1 implies rest[i] != c by {
            assert(rest[i] == s[i + 1]);
        }
        lemma_first_at(rest, c, at - 1);
    }
}

/// The variable that a line sets: what is before the first equals sign has the value after it.
/// A line without one sets none.
pub open spec fn variable_in(line: Seq<char>) -> Seq<(Seq<char>, Seq<char>)> {
    let at = first_at(line, '=');
    if at < line.len() {
        seq![(line.take(at), line.skip(at + 1))]
    } else {
        Seq::empty()
    }
}

/// The variables that lines set, each line being ended by a zero character or by the end.
pub open spec fn variables_in(lines: Seq<char>) -> Seq<(Seq<char>, Seq<char>)>
    decreases lines.len(),
{
    let end = first_at(lines, '\0');
    if lines.len() == 0 {
        Seq::empty()
    } else if 0 <= end < lines.len() {
        variable_in(lines.take(end)) + variables_in(lines.skip(end + 1))
    } else {
        variable_in(lines)
    }
}

/// Whether the variables are what is in the output of the shell after the first marker.
pub open spec fn are_set_by(
    variables: Seq<(Seq<char>, Seq<char>)>,
    output: Seq<char>,
) -> bool {
    exists|at: int|
        {
            &&& #[trigger] crate::text::occurs_at(output, MARKER@, at)
            &&& forall|before: int|
                0 <= before < at ==> !crate::text::occurs_at(output, MARKER@, before)
            &&& variables == variables_in(output.skip(at + MARKER@.len()))
        }
}

/// The texts of variables and their values.
pub open spec fn variable_texts(variables: Seq<(String, String)>) -> Seq<
    (Seq<char>, Seq<char>),
> {
    variables.map_values(|variable: (String, String)| (variable.0@, variable.1@))
}

fn push_variable(
    variables: &mut Vec<(String, String)>,
    output: &str,
    chars: &Vec<char>,
    start: usize,
    end: usize,
)
    requires
        chars@ == output@,
        start <= end <= chars@.len(),
    ensures
        variable_texts(final(variables)@) == variable_texts(old(variables)@) + variable_in(
            output@.subrange(start as int, end as int),
        ),
{
    let ghost line = output@.subrange(start as int, end as int);
    let mut i: usize = start;
    while i < end
        invariant
            chars@ == output@,
            start <= i <= end <= chars@.len(),
            line == output@.subrange(start as int, end as int),
            variables@ == old(variables)@,
            forall|j: int| 0 <= j < i - start ==> line[j] != '=',
        decreases end - i,
    {
        if chars[i] == '=' {
            let key = output.substring_char(start, i).to_string();
            let value = output.substring_char(i + 1, end).to_string();
            proof {
                lemma_first_at(line, '=', i - start);
                assert(key@ =~= line.take(i - start));
                assert(value@ =~= line.skip(i - start + 1));
            }
            variables.push((key, value));
            assert(variable_texts(variables@) =~= variable_texts(old(variables)@) + variable_in(
                line,
            ));
            return ;
        }
        i = i + 1;
    }
    proof {
        lemma_first_at(line, '=', line.len() as int);
        assert(variable_texts(variables@) =~= variable_texts(old(variables)@) + variable_in(line));
    }
}

fn variables_after(output: &str, chars: &Vec<char>, from: usize) -> (r: Vec<(String, String)>)
    requires
        chars@ == output@,
        from <= chars@.len(),
    ensures
        variable_texts(r@) == variables_in(output@.skip(from as int)),
{
    let ghost total = variables_in(output@.skip(from as int));
    let mut variables: Vec<(String, String)> = Vec::new();
    let mut start: usize = from;
    let mut i: usize = from;
    assert(variable_texts(variables@) + total =~= total);
    while i < chars.len()
        invariant
            chars@ == output@,
            from <= start <= i <= chars@.len(),
            forall|j: int| start <= j < i ==> output@[j] != '\0',
            variable_texts(variables@) + variables_in(output@.skip(start as int)) == total,
        decreases chars.len() - i,
    {
        if chars[i] == '\0' {
            let ghost lines = output@.skip(start as int);
            proof {
                lemma_first_at(lines, '\0', i - start);
                assert(lines.take(i - start) =~= output@.subrange(start as int, i as int));
                assert(lines.skip(i - start + 1) =~= output@.skip(i + 1));
            }
            let ghost before = variable_texts(variables@);
            push_variable(&mut variables, output, chars, start, i);
            assert(variable_texts(variables@) + variables_in(output@.skip(i + 1)) =~= before
                + variables_in(lines));
            start = i + 1;
        }
        i = i + 1;
    }
    let ghost last = output@.skip(start as int);
    proof {
        lemma_first_at(last, '\0', last.len() as int);
        assert(last =~= output@.subrange(start as int, output@.len() as int));
    }
    if start < chars.len() {
        push_variable(&mut variables, output, chars, start, chars.len());
    } else {
        assert(variable_texts(variables@) + variables_in(last) =~= variable_texts(variables@));
    }
    variables
}

/// The variables to set and their values, in order, from the output of the shell. Without a
/// marker in it there is no environment.
pub fn login_environment(output: &str) -> (r: Option<Vec<(String, String)>>)
    ensures
        match r {
            Some(variables) => are_set_by(variable_texts(variables@), output@),
            None => !crate::text::occurs(output@, MARKER@),
        },
{
    let chars = chars_of(output);
    let marker = chars_of(MARKER);
    match find(&chars, &marker) {
        Some(at) => {
            assert(at + marker@.len() <= chars.len());
            Some(variables_after(output, &chars, at + marker.len()))
        },
        None => None,
    }
}

/// What `String::from_utf8_lossy` makes of bytes.
pub uninterp spec fn text_of_bytes(bytes: Seq<u8>) -> Seq<char>;

/// Calls `String::from_utf8_lossy`, which reads bytes as UTF-8 and puts a replacement character
/// where they are not. It is a function of the bytes, and gives bytes that are ASCII back as the
/// characters that they stand for.
#[verifier::external_body]
fn read_lossily(bytes: &Vec<u8>) -> (r: String)
    ensures
        r@ == text_of_bytes(bytes@),
        (forall|i: int| 0 <= i < bytes@.len() ==> #[trigger] bytes@[i] < 128) ==> r@ == Seq::new(
            bytes@.len(),
            |i: int| bytes@[i] as char,
        ),
{
    String::from_utf8_lossy(bytes).into_owned()
}

/// The variables to set and their values, in order, from the output of the shell as it is
/// written.
pub fn login_environment_of_output(output: &Vec<u8>) -> (r: Option<Vec<(String, String)>>)
    ensures
        match r {
            Some(variables) => are_set_by(variable_texts(variables@), text_of_bytes(output@)),
            None => !crate::text::occurs(text_of_bytes(output@), MARKER@),
        },
{
    login_environment(read_lossily(output).as_str())
}

/// What is written of variables, each followed by a zero character.
pub open spec fn written(variables: Seq<(Seq<char>, Seq<char>)>) -> Seq<char>
    decreases variables.len(),
{
    if variables.len() == 0 {
        Seq::empty()
    } else {
        variables[0].0 + "="@ + variables[0].1 + "\0"@ + written(variables.skip(1))
    }
}

/// Variables that are written out are read back as they were, as long as no name has an equals
/// sign and nothing has a zero character in it.
pub proof fn law_written_variables_are_read_back(variables: Seq<(Seq<char>, Seq<char>)>)
    requires
        forall|i: int|
            0 <= i < variables.len() ==> !(#[trigger] variables[i]).0.contains('=')
                && !variables[i].0.contains('\0') && !variables[i].1.contains('\0'),
    ensures
        variables_in(written(variables)) == variables,
    decreases variables.len(),
{
    reveal_strlit("=");
    reveal_strlit("\0");
    if variables.len() == 0 {
        assert(written(variables) =~= Seq::empty());
        assert(variables_in(written(variables)) =~= variables);
    } else {
        let (name, value) = variables[0];
        let rest = variables.skip(1);
        assert forall|i: int| 0 <= i < rest.len() implies !(#[trigger] rest[i]).0.contains('=')
            && !rest[i].0.contains('\0') && !rest[i].1.contains('\0') by {
            assert(rest[i] == variables[i + 1]);
        }
        law_written_variables_are_read_back(rest);
        let lines = written(variables);
        let line = name + "="@ + value;
        assert(lines =~= line + "\0"@ + written(rest));
        assert forall|i: int| 0 <= i < line.len() implies lines[i] != '\0' by {
            if i < name.len() {
                assert(lines[i] == name[i]);
            } else if i > name.len() {
                assert(lines[i] == value[i - name.len() - 1]);
            }
        }
        lemma_first_at(lines, '\0', line.len() as int);
        assert(lines.take(line.len() as int) =~= line);
        assert(lines.skip(line.len() as int + 1) =~= written(rest));
        assert forall|i: int| 0 <= i < name.len() implies line[i] != '=' by {
            assert(line[i] == name[i]);
        }
        lemma_first_at(line, '=', name.len() as int);
        assert(line.take(name.len() as int) =~= name);
        assert(line.skip(name.len() as int + 1) =~= value);
        assert(variables_in(lines) =~= seq![variables[0]] + rest);
        assert(seq![variables[0]] + rest =~= variables);
    }
}

}
