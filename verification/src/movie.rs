use crate::input::{Input, spec_fm2_bits};
use vstd::prelude::*;

verus! {

/// Whether a character is a decimal digit.
pub open spec fn spec_is_digit(c: char) -> bool {
    48 <= c as int <= 57
}

/// The length of the run of digits in `s` starting at `i`.
pub open spec fn spec_digit_run(s: Seq<char>, i: int) -> int
    decreases s.len() - i,
{
    if i < 0 || i >= s.len() || !spec_is_digit(s[i]) {
        0
    } else {
        1 + spec_digit_run(s, i + 1)
    }
}

/// Whether a line of an fm2 input log's frame section is well-formed:
/// a bar, the frame's decimal number, a bar, the 8-character input
/// column free of bars, and a closing bar. Anything after the closing
/// bar is ignored.
pub open spec fn spec_line_ok(s: Seq<char>) -> bool {
    let j = 1 + spec_digit_run(s, 1);
    &&& s.len() >= 1
    &&& s[0] == '|'
    &&& spec_digit_run(s, 1) >= 1
    &&& j + 10 <= s.len()
    &&& s[j] == '|'
    &&& (forall|t: int| j + 1 <= t < j + 9 ==> s[t] != '|')
    &&& s[j + 9] == '|'
}

/// The input a well-formed frame line encodes: its 8-character column,
/// decoded with character `k` giving bit `k`.
pub open spec fn spec_line_input(s: Seq<char>) -> Input {
    let j = 1 + spec_digit_run(s, 1);
    Input { bits: spec_fm2_bits(s.subrange(j + 1, j + 9)) }
}

/// Whether a line starts the frame section: it begins with a bar.
pub open spec fn spec_starts_frame(s: Seq<char>) -> bool {
    s.len() >= 1 && s[0] == '|'
}

/// The index of the first line that begins with a bar, scanning from
/// `i`; every earlier line is header material.
pub open spec fn spec_frames_start(lines: Seq<Seq<char>>, i: int) -> int
    decreases lines.len() - i,
{
    if i < 0 || i >= lines.len() || spec_starts_frame(lines[i]) {
        i
    } else {
        spec_frames_start(lines, i + 1)
    }
}

/// A recorded input log: the already-decoded controller snapshot of
/// every frame, in order.
#[derive(Clone, Debug)]
pub struct Movie {
    pub inputs: Vec<Input>,
}

impl Movie {
    /// Decodes the lines of an fm2 file: header lines up to the first
    /// bar-initial line are skipped, and every line from there on must
    /// be a well-formed frame line, each contributing one input.
    pub fn from_lines(lines: &Vec<String>) -> (r: Result<Movie, String>)
        ensures
            ({
                let views = lines@.map_values(|l: String| l@);
                let start = spec_frames_start(views, 0);
                &&& (r is Ok <==> (forall|i: int|
                    start <= i < views.len() ==> #[trigger] spec_line_ok(views[i])))
                &&& (r matches Ok(m) ==> m.inputs@.len() == views.len() - start && (forall|i: int|
                    0 <= i < m.inputs@.len() ==> m.inputs@[i] == spec_line_input(
                        #[trigger] views[start + i],
                    )))
            }),
    {
        let ghost views = lines@.map_values(|l: String| l@);
        let mut idx: usize = 0;
        while idx < lines.len() && !starts_frame(&lines[idx])
            invariant
                idx <= lines@.len(),
                views == lines@.map_values(|l: String| l@),
                spec_frames_start(views, 0) == spec_frames_start(views, idx as int),
            decreases lines@.len() - idx,
        {
            idx += 1;
        }
        let ghost start = spec_frames_start(views, 0);
        proof {
            assert(start == idx as int);
        }

        let mut inputs: Vec<Input> = Vec::new();
        let mut i: usize = idx;
        while i < lines.len()
            invariant
                idx <= i <= lines@.len(),
                views == lines@.map_values(|l: String| l@),
                start == idx as int,
                start == spec_frames_start(views, 0),
                inputs@.len() == i - idx,
                forall|t: int| idx <= t < i ==> spec_line_ok(views[t]),
                forall|t: int|
                    0 <= t < inputs@.len() ==> inputs@[t] == spec_line_input(views[idx + t]),
            decreases lines@.len() - i,
        {
            let parsed = parse_frame_line(&lines[i]);
            proof {
                assert(views[i as int] == lines@[i as int]@);
            }
            match parsed {
                Some(input) => {
                    inputs.push(input);
                },
                None => {
                    proof {
                        assert(!spec_line_ok(views[i as int]));
                    }
                    return Err(String::from_str("non-input line in fm2 input log section"));
                },
            }
            i += 1;
        }

        Ok(Movie { inputs })
    }
}

/// Tests whether a line begins with a bar.
fn starts_frame(line: &String) -> (b: bool)
    ensures
        b == spec_starts_frame(line@),
{
    let s = line.as_str();
    s.unicode_len() >= 1 && s.get_char(0) == '|'
}

/// Tests whether a character is a decimal digit.
fn is_digit(c: char) -> (b: bool)
    ensures
        b == spec_is_digit(c),
{
    let u = c as u32;
    48 <= u && u <= 57
}

/// Parses one line of the frame section: `None` when the line is not a
/// well-formed frame line, otherwise the decoded input.
fn parse_frame_line(line: &String) -> (r: Option<Input>)
    ensures
        r is Some <==> spec_line_ok(line@),
        r matches Some(input) ==> input == spec_line_input(line@),
{
    let s = line.as_str();
    let n = s.unicode_len();
    if n < 1 || s.get_char(0) != '|' {
        return None;
    }

    let mut j: usize = 1;
    while j < n && is_digit(s.get_char(j))
        invariant
            1 <= j <= n,
            n == s@.len(),
            spec_digit_run(s@, 1) == j - 1 + spec_digit_run(s@, j as int),
        decreases n - j,
    {
        j += 1;
    }
    proof {
        assert(spec_digit_run(s@, 1) == j - 1);
    }
    if j == 1 {
        return None;
    }
    if j >= n || n - j < 10 {
        return None;
    }
    if s.get_char(j) != '|' {
        return None;
    }

    let mut t: usize = j + 1;
    while t < j + 9
        invariant
            n == s@.len(),
            line@ == s@,
            s@[0] == '|',
            spec_digit_run(s@, 1) == j - 1,
            s@[j as int] == '|',
            2 <= j,
            j + 10 <= n,
            j + 1 <= t <= j + 9,
            forall|u: int| j + 1 <= u < t ==> s@[u] != '|',
        decreases j + 9 - t,
    {
        if s.get_char(t) == '|' {
            return None;
        }
        t += 1;
    }
    if s.get_char(j + 9) != '|' {
        return None;
    }

    let column = String::from_str(s.substring_char(j + 1, j + 9));
    match Input::from_fm2_string(&column) {
        Ok(input) => Some(input),
        Err(_) => None,
    }
}

} // verus!
