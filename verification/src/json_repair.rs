//! Repair stages for the JSON text that language models return: byte-order marks,
//! markdown code fences, prose around the JSON, trailing commas and missing
//! closing brackets.
use vstd::prelude::*;
use vstd::string::StringExecFns;
use crate::text::{
    chars_of, decimal, push_decimal, find, find_exec, is_whitespace, is_ws, lemma_find_from, push_char, string_of,
    string_of_range, str_eq, sub_vec, trim, trim_bounds,
};
use crate::structured::{json_from_str, json_parse, json_parse_error, json_text_parses};

verus! {

broadcast use vstd::string::group_string_axioms;

// ---------------------------------------------------------------------------
// Stages and the error that reports a failed repair.
// ---------------------------------------------------------------------------
/// A repair stage applied to a model's JSON answer.
#[derive(Debug, Clone, Copy, PartialEq, Eq, Structural)]
pub enum RepairStage {
    BomStripped,
    FenceStripped,
    FirstObjectExtracted,
    TrailingCommaRemoved,
    BracketBalanced,
}

/// The snake-case name of a stage.
pub open spec fn stage_name(stage: RepairStage) -> Seq<char> {
    match stage {
        RepairStage::BomStripped => "bom_stripped"@,
        RepairStage::FenceStripped => "fence_stripped"@,
        RepairStage::FirstObjectExtracted => "first_object_extracted"@,
        RepairStage::TrailingCommaRemoved => "trailing_comma_removed"@,
        RepairStage::BracketBalanced => "bracket_balanced"@,
    }
}

impl RepairStage {
    /// The snake-case name of the stage, as it appears in error messages.
    pub fn name(&self) -> (r: &'static str)
        ensures
            r@ == stage_name(*self),
    {
        match self {
            RepairStage::BomStripped => "bom_stripped",
            RepairStage::FenceStripped => "fence_stripped",
            RepairStage::FirstObjectExtracted => "first_object_extracted",
            RepairStage::TrailingCommaRemoved => "trailing_comma_removed",
            RepairStage::BracketBalanced => "bracket_balanced",
        }
    }
}

/// The names of `stages`, separated by commas.
pub open spec fn joined_stage_names(stages: Seq<RepairStage>) -> Seq<char>
    decreases stages.len(),
{
    if stages.len() == 0 {
        Seq::empty()
    } else if stages.len() == 1 {
        stage_name(stages[0])
    } else {
        joined_stage_names(stages.drop_last()) + ","@ + stage_name(stages.last())
    }
}

/// A failure to parse a model's JSON answer after the repair stages.
#[derive(Debug)]
pub struct RepairError {
    pub stages_applied: Vec<RepairStage>,
    pub source_snippet: String,
    pub last_attempt_snippet: String,
    pub parse_error: String,
}

/// The message of a repair failure.
pub open spec fn repair_error_message(stages: Seq<RepairStage>, parse_error: Seq<char>) -> Seq<char> {
    "failed to parse LLM JSON after "@ + decimal(stages.len()) + " repair stage(s) ["@
        + joined_stage_names(stages) + "]: "@ + parse_error
}

impl RepairError {
    /// The human-readable message: how many stages ran, their names, and the parse error.
    pub fn message(&self) -> (r: String)
        ensures
            r@ == repair_error_message(self.stages_applied@, self.parse_error@),
    {
        let mut out = String::from_str("failed to parse LLM JSON after ");
        push_decimal(&mut out, self.stages_applied.len() as u64);
        out.append(" repair stage(s) [");
        let ghost prefix = out@;
        let mut i: usize = 0;
        while i < self.stages_applied.len()
            invariant
                i <= self.stages_applied@.len(),
                out@ == prefix + joined_stage_names(self.stages_applied@.take(i as int)),
            decreases self.stages_applied@.len() - i,
        {
            let ghost before = out@;
            if i > 0 {
                out.append(",");
            }
            out.append(self.stages_applied[i].name());
            proof {
                let st = self.stages_applied@;
                assert(st.take(i + 1).drop_last() =~= st.take(i as int));
                assert(st.take(i + 1).last() == st[i as int]);
                if i == 0 {
                    assert(st.take(1) =~= seq![st[0]]);
                }
            }
            i += 1;
            assert(out@ =~= prefix + joined_stage_names(self.stages_applied@.take(i as int)));
        }
        assert(self.stages_applied@.take(i as int) =~= self.stages_applied@);
        out.append("]: ");
        out.append(self.parse_error.as_str());
        assert(out@ =~= repair_error_message(self.stages_applied@, self.parse_error@));
        out
    }
}

// ---------------------------------------------------------------------------
// The string-literal lexer shared by the stages.
// ---------------------------------------------------------------------------
/// One step of the lexer that tracks JSON string literals.
/// The state is (inside a string literal, the next character is escaped).
pub open spec fn lex_step(st: (bool, bool), c: char) -> (bool, bool) {
    if st.1 {
        (st.0, false)
    } else if st.0 {
        if c == '\\' {
            (true, true)
        } else if c == '"' {
            (false, false)
        } else {
            st
        }
    } else if c == '"' {
        (true, false)
    } else {
        st
    }
}

/// The lexer state after reading all of `s`.
pub open spec fn lex_state(s: Seq<char>) -> (bool, bool)
    decreases s.len(),
{
    if s.len() == 0 {
        (false, false)
    } else {
        lex_step(lex_state(s.drop_last()), s.last())
    }
}

/// Whether the character at `i` stands outside any string literal (and is not escaped).
pub open spec fn is_structural(s: Seq<char>, i: int) -> bool {
    lex_state(s.take(i)) == (false, false)
}

/// How many times `c` occurs in `s` outside string literals.
pub open spec fn count_structural(s: Seq<char>, c: char) -> int
    decreases s.len(),
{
    if s.len() == 0 {
        0
    } else {
        count_structural(s.drop_last(), c) + if lex_state(s.drop_last()) == (false, false)
            && s.last() == c {
            1int
        } else {
            0int
        }
    }
}

proof fn lemma_take_step(s: Seq<char>, k: int)
    requires
        0 <= k < s.len(),
    ensures
        s.take(k + 1).drop_last() == s.take(k),
        s.take(k + 1).last() == s[k],
{
    assert(s.take(k + 1).drop_last() =~= s.take(k));
}

// ---------------------------------------------------------------------------
// Byte-order mark.
// ---------------------------------------------------------------------------
/// `s` without a leading byte-order mark.
pub open spec fn strip_bom_spec(s: Seq<char>) -> Seq<char> {
    if s.len() > 0 && s[0] == '\u{feff}' {
        s.drop_first()
    } else {
        s
    }
}

/// Removes a leading byte-order mark (U+FEFF).
pub fn strip_bom(input: &str) -> (r: String)
    ensures
        r@ == strip_bom_spec(input@),
{
    let v = chars_of(input);
    if v.len() > 0 && v[0] == '\u{feff}' {
        string_of_range(&v, 1, v.len())
    } else {
        string_of(&v)
    }
}

// ---------------------------------------------------------------------------
// Markdown code fences.
// ---------------------------------------------------------------------------
/// The three backticks that open and close a fence.
pub open spec fn fence() -> Seq<char> {
    seq!['`', '`', '`']
}

/// Where the fenced content starts: after the first fence and the rest of its line
/// (the language tag), or at the end of the text when that line does not end.
pub open spec fn fence_start_spec(s: Seq<char>) -> Option<int> {
    match find(s, fence()) {
        None => None,
        Some(start) => {
            let after = s.subrange(start + 3, s.len() as int);
            let lang_end = match find(after, seq!['\n']) {
                Some(nl) => nl + 1,
                None => after.len() as int,
            };
            Some(start + 3 + lang_end)
        },
    }
}

/// The content of the first fenced block, trimmed; the input unchanged when the
/// trimmed input holds no fence.
pub open spec fn strip_code_fence_spec(s: Seq<char>) -> Seq<char> {
    let t = trim(s);
    match fence_start_spec(t) {
        None => s,
        Some(idx) => {
            let after = t.subrange(idx, t.len() as int);
            let inner = match find(after, fence()) {
                Some(end) => after.take(end),
                None => after,
            };
            trim(inner)
        },
    }
}

fn fence_chars() -> (v: Vec<char>)
    ensures
        v@ == fence(),
{
    let v = vec!['`', '`', '`'];
    assert(v@ =~= fence());
    v
}

fn find_fence_start(input: &Vec<char>) -> (r: Option<usize>)
    ensures
        match r {
            Some(k) => fence_start_spec(input@) == Some(k as int) && k <= input@.len(),
            None => fence_start_spec(input@) is None,
        },
{
    let f = fence_chars();
    let start = match find_exec(input, &f) {
        Some(st) => st,
        None => return None,
    };
    proof {
        assert(fence().len() == 3);
        lemma_find_from(input@, fence(), 0);
    }
    let n = input.len();
    assert(start + 3 <= n);
    let after = sub_vec(input, start + 3, input.len());
    let nl = vec!['\n'];
    assert(nl@ =~= seq!['\n']);
    let lang_end = match find_exec(&after, &nl) {
        Some(i) => {
            proof {
                lemma_find_from(after@, seq!['\n'], 0);
            }
            i + 1
        },
        None => after.len(),
    };
    Some(start + 3 + lang_end)
}

/// Returns the trimmed content of the first markdown code fence, dropping the
/// language tag line; returns the input unchanged when it holds no fence.
pub fn strip_code_fence(input: &str) -> (r: String)
    ensures
        r@ == strip_code_fence_spec(input@),
{
    let v = chars_of(input);
    let (lo, hi) = trim_bounds(&v);
    let trimmed = sub_vec(&v, lo, hi);
    let idx = match find_fence_start(&trimmed) {
        Some(i) => i,
        None => return string_of(&v),
    };
    let after = sub_vec(&trimmed, idx, trimmed.len());
    let f = fence_chars();
    let inner = match find_exec(&after, &f) {
        Some(end) => {
            proof {
                lemma_find_from(after@, fence(), 0);
            }
            let r = sub_vec(&after, 0, end);
            assert(r@ =~= after@.take(end as int));
            r
        },
        None => after,
    };
    let (a, b) = trim_bounds(&inner);
    string_of_range(&inner, a, b)
}

// ---------------------------------------------------------------------------
// The first JSON value in surrounding prose.
// ---------------------------------------------------------------------------
/// The first position at or after `i` that holds `{` or `[`.
pub open spec fn first_open_from(s: Seq<char>, i: int) -> Option<int>
    decreases s.len() - i,
{
    if i < 0 || i >= s.len() {
        None
    } else if s[i] == '{' || s[i] == '[' {
        Some(i)
    } else {
        first_open_from(s, i + 1)
    }
}

/// The bracket that closes `open`.
pub open spec fn closer(open: char) -> char {
    if open == '{' {
        '}'
    } else {
        ']'
    }
}

/// Nesting depth of `open` brackets after the first `k` characters of `t`,
/// counting only brackets outside string literals.
pub open spec fn depth(t: Seq<char>, open: char, k: int) -> int {
    count_structural(t.take(k), open) - count_structural(t.take(k), closer(open))
}

/// The shortest prefix length, at least `k` and at least one, after which the
/// brackets of `t` balance.
pub open spec fn balanced_end_from(t: Seq<char>, open: char, k: int) -> Option<int>
    decreases t.len() + 1 - k,
{
    if k < 1 || k > t.len() {
        None
    } else if depth(t, open, k) == 0 {
        Some(k)
    } else {
        balanced_end_from(t, open, k + 1)
    }
}

/// The first JSON object or array in `s`: from the first `{` or `[` to the bracket
/// that balances it; `s` unchanged when there is no bracket or it never balances.
pub open spec fn extract_first_json_object_spec(s: Seq<char>) -> Seq<char> {
    match first_open_from(s, 0) {
        None => s,
        Some(start) => {
            let t = s.subrange(start, s.len() as int);
            match balanced_end_from(t, s[start], 1) {
                Some(end) => t.take(end),
                None => s,
            }
        },
    }
}

/// Cuts the first complete JSON object or array out of surrounding text.
pub fn extract_first_json_object(input: &str) -> (r: String)
    ensures
        r@ == extract_first_json_object_spec(input@),
{
    let v = chars_of(input);
    let ghost s = v@;
    let mut start: usize = 0;
    while start < v.len() && v[start] != '{' && v[start] != '['
        invariant
            start <= s.len(),
            s == v@,
            first_open_from(s, 0) == first_open_from(s, start as int),
        decreases s.len() - start,
    {
        start += 1;
    }
    if start == v.len() {
        return string_of(&v);
    }
    let open = v[start];
    let close = if open == '{' {
        '}'
    } else {
        ']'
    };
    let ghost t = s.subrange(start as int, s.len() as int);
    let mut depth_now: usize = 0;
    let mut in_string = false;
    let mut escape = false;
    let mut idx = start;
    while idx < v.len()
        invariant
            s == v@,
            s == input@,
            start <= idx <= s.len(),
            t == s.subrange(start as int, s.len() as int),
            first_open_from(s, 0) == Some(start as int),
            open == s[start as int],
            open == '{' || open == '[',
            close == closer(open),
            (in_string, escape) == lex_state(t.take(idx - start)),
            depth_now as int == depth(t, open, idx - start),
            idx > start ==> depth_now >= 1,
            depth_now <= idx - start,
            balanced_end_from(t, open, 1) == balanced_end_from(t, open, idx - start + 1),
        decreases s.len() - idx,
    {
        let b = v[idx];
        let ghost k = idx - start;
        proof {
            lemma_take_step(t, k);
            assert(t[k] == b);
        }
        if escape {
            escape = false;
        } else if in_string {
            if b == '\\' {
                escape = true;
            } else if b == '"' {
                in_string = false;
            }
        } else if b == '"' {
            in_string = true;
        } else if b == open {
            depth_now += 1;
        } else if b == close {
            depth_now -= 1;
            if depth_now == 0 {
                assert(depth(t, open, k + 1) == 0);
                assert(balanced_end_from(t, open, k + 1) == Some(k + 1));
                let r = string_of_range(&v, start, idx + 1);
                assert(t.take(k + 1) =~= s.subrange(start as int, idx + 1));
                assert(balanced_end_from(t, open, 1) == Some(k + 1));
                assert(extract_first_json_object_spec(s) == t.take(k + 1));
                return r;
            }
        }
        idx += 1;
    }
    string_of(&v)
}

// ---------------------------------------------------------------------------
// Trailing commas.
// ---------------------------------------------------------------------------
/// The first position at or after `j` that does not hold white space.
pub open spec fn next_non_ws_from(s: Seq<char>, j: int) -> Option<int>
    decreases s.len() - j,
{
    if j < 0 || j >= s.len() {
        None
    } else if !is_ws(s[j]) {
        Some(j)
    } else {
        next_non_ws_from(s, j + 1)
    }
}

/// Whether the character at `i` is a trailing comma: a comma outside string
/// literals whose next non-white-space character closes an object or an array.
pub open spec fn is_trailing_comma(s: Seq<char>, i: int) -> bool {
    &&& is_structural(s, i)
    &&& s[i] == ','
    &&& match next_non_ws_from(s, i + 1) {
        Some(j) => s[j] == '}' || s[j] == ']',
        None => false,
    }
}

/// The first `n` characters of `s` without their trailing commas.
pub open spec fn kept_prefix(s: Seq<char>, n: int) -> Seq<char>
    decreases n,
{
    if n <= 0 {
        Seq::empty()
    } else {
        kept_prefix(s, n - 1) + if is_trailing_comma(s, n - 1) {
            Seq::<char>::empty()
        } else {
            seq![s[n - 1]]
        }
    }
}

/// `s` without its trailing commas.
pub open spec fn strip_trailing_commas_spec(s: Seq<char>) -> Seq<char> {
    kept_prefix(s, s.len() as int)
}

/// Removes every comma that stands directly (up to white space) before a closing
/// `}` or `]`, leaving string literals untouched.
pub fn strip_trailing_commas(input: &str) -> (r: String)
    ensures
        r@ == strip_trailing_commas_spec(input@),
{
    let chars = chars_of(input);
    let ghost s = chars@;
    let mut out = String::new();
    let mut in_string = false;
    let mut escape = false;
    let mut i: usize = 0;
    while i < chars.len()
        invariant
            s == chars@,
            i <= s.len(),
            (in_string, escape) == lex_state(s.take(i as int)),
            out@ == kept_prefix(s, i as int),
        decreases s.len() - i,
    {
        let ch = chars[i];
        proof {
            lemma_take_step(s, i as int);
        }
        let structural = !escape && !in_string;
        let mut drop = false;
        if escape {
            escape = false;
        } else if in_string {
            if ch == '\\' {
                escape = true;
            }
            if ch == '"' {
                in_string = false;
            }
        } else if ch == '"' {
            in_string = true;
        } else if ch == ',' {
            let mut j = i + 1;
            while j < chars.len() && is_whitespace(chars[j])
                invariant
                    s == chars@,
                    i < j <= s.len(),
                    next_non_ws_from(s, i + 1) == next_non_ws_from(s, j as int),
                decreases s.len() - j,
            {
                j += 1;
            }
            if j < chars.len() && (chars[j] == '}' || chars[j] == ']') {
                drop = true;
            }
        }
        assert(drop == is_trailing_comma(s, i as int));
        if !drop {
            push_char(&mut out, ch);
        }
        i += 1;
        assert(out@ =~= kept_prefix(s, i as int));
    }
    assert(s.take(s.len() as int) =~= s);
    out
}

// ---------------------------------------------------------------------------
// Missing closing brackets.
// ---------------------------------------------------------------------------
/// `n` copies of `c`.
pub open spec fn repeat(c: char, n: int) -> Seq<char> {
    Seq::new(if n < 0 {
        0nat
    } else {
        n as nat
    }, |i: int| c)
}

/// `s` with the closers it lacks appended: first the missing `]`, then the missing
/// `}`; unchanged when it ends inside a string literal or lacks no closer.
pub open spec fn balance_brackets_spec(s: Seq<char>) -> Seq<char> {
    let curly = count_structural(s, '{') - count_structural(s, '}');
    let square = count_structural(s, '[') - count_structural(s, ']');
    if lex_state(s).0 {
        s
    } else if curly <= 0 && square <= 0 {
        s
    } else {
        s + repeat(']', square) + repeat('}', curly)
    }
}

proof fn lemma_escape_only_in_string(s: Seq<char>)
    ensures
        lex_state(s).1 ==> lex_state(s).0,
    decreases s.len(),
{
    if s.len() > 0 {
        lemma_escape_only_in_string(s.drop_last());
    }
}

proof fn lemma_append_repeat(s: Seq<char>, c: char, n: int, d: char)
    requires
        lex_state(s) == (false, false),
        c != '"',
        n >= 0,
    ensures
        lex_state(s + repeat(c, n)) == (false, false),
        count_structural(s + repeat(c, n), d) == count_structural(s, d) + if d == c {
            n
        } else {
            0
        },
    decreases n,
{
    if n == 0 {
        assert(s + repeat(c, n) =~= s);
    } else {
        let t = s + repeat(c, n);
        assert(t.drop_last() =~= s + repeat(c, n - 1));
        assert(t.last() == c);
        lemma_append_repeat(s, c, n - 1, d);
    }
}

proof fn lemma_first_open_from_is(s: Seq<char>, i: int, j: int)
    requires
        0 <= j <= i < s.len(),
        s[i] == '{' || s[i] == '[',
        forall|x: int| 0 <= x < i ==> s[x] != '{' && s[x] != '[',
    ensures
        first_open_from(s, j) == Some(i),
    decreases i - j,
{
    if j < i {
        lemma_first_open_from_is(s, i, j + 1);
    }
}

proof fn lemma_balanced_end_from(t: Seq<char>, open: char, k: int)
    requires
        k >= 1,
    ensures
        match balanced_end_from(t, open, k) {
            Some(e) => k <= e <= t.len() && depth(t, open, e) == 0 && forall|j: int|
                k <= j < e ==> depth(t, open, j) != 0,
            None => forall|j: int| k <= j <= t.len() ==> depth(t, open, j) != 0,
        },
    decreases t.len() + 1 - k,
{
    if k <= t.len() && depth(t, open, k) != 0 {
        lemma_balanced_end_from(t, open, k + 1);
    }
}

/// Extraction cuts out the first bracketed value: when the brackets of the kind that
/// opens at the first `{` or `[` of `s` balance somewhere after it, the result is the
/// text from that bracket to the first point where they balance (counting nested
/// brackets, outside string literals); when they never balance, `s` is kept whole.
pub proof fn lemma_extract_first_json_object_cuts_balanced_value(s: Seq<char>, i: int)
    requires
        0 <= i < s.len(),
        s[i] == '{' || s[i] == '[',
        forall|x: int| 0 <= x < i ==> s[x] != '{' && s[x] != '[',
    ensures
        ({
            let r = extract_first_json_object_spec(s);
            let o = s[i];
            let c = if o == '{' {
                '}'
            } else {
                ']'
            };
            if exists|k: int|
                1 <= k <= s.len() - i && #[trigger] count_structural(s.subrange(i, i + k), o)
                    == count_structural(s.subrange(i, i + k), c) {
                &&& 1 <= r.len() <= s.len() - i
                &&& r == s.subrange(i, i + r.len())
                &&& count_structural(r, o) == count_structural(r, c)
                &&& forall|k: int|
                    1 <= k < r.len() ==> #[trigger] count_structural(r.take(k), o)
                        != count_structural(r.take(k), c)
            } else {
                r == s
            }
        }),
{
    lemma_first_open_from_is(s, i, 0);
    let o = s[i];
    let c = if o == '{' {
        '}'
    } else {
        ']'
    };
    assert(closer(o) == c);
    let t = s.subrange(i, s.len() as int);
    lemma_balanced_end_from(t, o, 1);
    assert forall|k: int| 1 <= k <= s.len() - i implies #[trigger] t.take(k) == s.subrange(
        i,
        i + k,
    ) by {
        assert(t.take(k) =~= s.subrange(i, i + k));
    }
    let r = extract_first_json_object_spec(s);
    if exists|k: int|
        1 <= k <= s.len() - i && #[trigger] count_structural(s.subrange(i, i + k), o)
            == count_structural(s.subrange(i, i + k), c) {
        let k = choose|k: int|
            1 <= k <= s.len() - i && #[trigger] count_structural(s.subrange(i, i + k), o)
                == count_structural(s.subrange(i, i + k), c);
        assert(t.take(k) == s.subrange(i, i + k));
        assert(depth(t, o, k) == 0);
        match balanced_end_from(t, o, 1) {
            Some(e) => {
                assert(r == t.take(e));
                assert(r == s.subrange(i, i + e));
                assert forall|j: int| 1 <= j < r.len() implies #[trigger] count_structural(
                    r.take(j),
                    o,
                ) != count_structural(r.take(j), c) by {
                    assert(r.take(j) =~= t.take(j));
                    assert(depth(t, o, j) != 0);
                }
            },
            None => {
                assert(depth(t, o, k) != 0);
            },
        }
    } else {
        match balanced_end_from(t, o, 1) {
            Some(e) => {
                assert(t.take(e) == s.subrange(i, i + e));
                assert(count_structural(s.subrange(i, i + e), o) == count_structural(
                    s.subrange(i, i + e),
                    c,
                ));
            },
            None => {},
        }
    }
}

/// Balancing leaves no bracket open: unless the text ends inside a string literal,
/// the result holds, outside string literals, at least as many `}` as `{` and at
/// least as many `]` as `[`; and it only ever appends to the text.
pub proof fn lemma_balance_brackets_closes_all(s: Seq<char>)
    requires
        !lex_state(s).0,
    ensures
        count_structural(balance_brackets_spec(s), '}') >= count_structural(
            balance_brackets_spec(s),
            '{',
        ),
        count_structural(balance_brackets_spec(s), ']') >= count_structural(
            balance_brackets_spec(s),
            '[',
        ),
        balance_brackets_spec(s).take(s.len() as int) == s,
{
    lemma_escape_only_in_string(s);
    let curly = count_structural(s, '{') - count_structural(s, '}');
    let square = count_structural(s, '[') - count_structural(s, ']');
    if curly <= 0 && square <= 0 {
        assert(balance_brackets_spec(s) =~= s);
        assert(s.take(s.len() as int) =~= s);
    } else {
        let sq: int = if square < 0 {
            0
        } else {
            square
        };
        let cu: int = if curly < 0 {
            0
        } else {
            curly
        };
        let a = s + repeat(']', sq);
        assert(repeat(']', square) =~= repeat(']', sq));
        assert(repeat('}', curly) =~= repeat('}', cu));
        lemma_append_repeat(s, ']', sq, '{');
        lemma_append_repeat(s, ']', sq, '}');
        lemma_append_repeat(s, ']', sq, '[');
        lemma_append_repeat(s, ']', sq, ']');
        lemma_append_repeat(a, '}', cu, '{');
        lemma_append_repeat(a, '}', cu, '}');
        lemma_append_repeat(a, '}', cu, '[');
        lemma_append_repeat(a, '}', cu, ']');
        assert(balance_brackets_spec(s) == a + repeat('}', cu));
        assert((a + repeat('}', cu)).take(s.len() as int) =~= s);
    }
}

fn push_repeated(out: &mut String, c: char, n: usize)
    ensures
        final(out)@ == old(out)@ + repeat(c, n as int),
{
    let ghost base = out@;
    let mut k: usize = 0;
    while k < n
        invariant
            k <= n,
            out@ == base + repeat(c, k as int),
        decreases n - k,
    {
        push_char(out, c);
        k += 1;
        assert(out@ =~= base + repeat(c, k as int));
    }
}

/// Appends the closing `]` and `}` that an unfinished JSON text lacks, unless the
/// text ends inside a string literal.
pub fn balance_brackets(input: &str) -> (r: String)
    ensures
        r@ == balance_brackets_spec(input@),
{
    let v = chars_of(input);
    let ghost s = v@;
    let mut open_curly: usize = 0;
    let mut close_curly: usize = 0;
    let mut open_square: usize = 0;
    let mut close_square: usize = 0;
    let mut in_string = false;
    let mut escape = false;
    let mut i: usize = 0;
    while i < v.len()
        invariant
            s == v@,
            i <= s.len(),
            (in_string, escape) == lex_state(s.take(i as int)),
            open_curly as int == count_structural(s.take(i as int), '{'),
            close_curly as int == count_structural(s.take(i as int), '}'),
            open_square as int == count_structural(s.take(i as int), '['),
            close_square as int == count_structural(s.take(i as int), ']'),
            open_curly + close_curly + open_square + close_square <= i,
        decreases s.len() - i,
    {
        let ch = v[i];
        proof {
            lemma_take_step(s, i as int);
        }
        if escape {
            escape = false;
        } else if in_string {
            if ch == '\\' {
                escape = true;
            } else if ch == '"' {
                in_string = false;
            }
        } else if ch == '"' {
            in_string = true;
        } else if ch == '{' {
            open_curly += 1;
        } else if ch == '}' {
            close_curly += 1;
        } else if ch == '[' {
            open_square += 1;
        } else if ch == ']' {
            close_square += 1;
        }
        i += 1;
    }
    assert(s.take(s.len() as int) =~= s);
    let mut out = string_of(&v);
    if in_string {
        return out;
    }
    if open_curly <= close_curly && open_square <= close_square {
        return out;
    }
    if open_square > close_square {
        push_repeated(&mut out, ']', open_square - close_square);
    } else {
        push_repeated(&mut out, ']', 0);
    }
    if open_curly > close_curly {
        push_repeated(&mut out, '}', open_curly - close_curly);
    } else {
        push_repeated(&mut out, '}', 0);
    }
    out
}

// ---------------------------------------------------------------------------
// The repair pipeline.
// ---------------------------------------------------------------------------
/// The stages in the order they are tried.
pub open spec fn stage_order() -> Seq<RepairStage> {
    seq![
        RepairStage::BomStripped,
        RepairStage::FenceStripped,
        RepairStage::FirstObjectExtracted,
        RepairStage::TrailingCommaRemoved,
        RepairStage::BracketBalanced,
    ]
}

/// How many stages there are.
pub const REPAIR_STAGE_COUNT: usize = 5;

/// What a stage makes of `s`.
pub open spec fn apply_stage(stage: RepairStage, s: Seq<char>) -> Seq<char> {
    match stage {
        RepairStage::BomStripped => strip_bom_spec(s),
        RepairStage::FenceStripped => strip_code_fence_spec(s),
        RepairStage::FirstObjectExtracted => extract_first_json_object_spec(s),
        RepairStage::TrailingCommaRemoved => strip_trailing_commas_spec(s),
        RepairStage::BracketBalanced => balance_brackets_spec(s),
    }
}

/// The repair of `s` after trying the first `k` stages: the text so far, the stages
/// that changed it, and whether it parses. The text is parsed first as it is; a stage
/// that changes nothing is not recorded; the first text that parses ends the repair.
pub open spec fn repair_after(s: Seq<char>, k: nat) -> (Seq<char>, Seq<RepairStage>, bool)
    decreases k,
{
    if k == 0 {
        (s, Seq::empty(), json_text_parses(s))
    } else {
        let prev = repair_after(s, (k - 1) as nat);
        if prev.2 {
            prev
        } else {
            let stage = stage_order()[k - 1];
            let next = apply_stage(stage, prev.0);
            if next == prev.0 {
                prev
            } else {
                (next, prev.1.push(stage), json_text_parses(next))
            }
        }
    }
}

/// The first 200 characters of `s`.
pub open spec fn snippet(s: Seq<char>) -> Seq<char> {
    if s.len() <= 200 {
        s
    } else {
        s.take(200)
    }
}

proof fn lemma_repair_done_stays(s: Seq<char>, k: nat, m: nat)
    requires
        k <= m,
        repair_after(s, k).2,
    ensures
        repair_after(s, m) == repair_after(s, k),
    decreases m - k,
{
    if m > k {
        lemma_repair_done_stays(s, k, (m - 1) as nat);
    }
}

fn stage_at(k: usize) -> (r: RepairStage)
    requires
        k < REPAIR_STAGE_COUNT,
    ensures
        r == stage_order()[k as int],
{
    if k == 0 {
        RepairStage::BomStripped
    } else if k == 1 {
        RepairStage::FenceStripped
    } else if k == 2 {
        RepairStage::FirstObjectExtracted
    } else if k == 3 {
        RepairStage::TrailingCommaRemoved
    } else {
        RepairStage::BracketBalanced
    }
}

/// Applies one stage.
pub fn apply_stage_exec(stage: RepairStage, input: &str) -> (r: String)
    ensures
        r@ == apply_stage(stage, input@),
{
    match stage {
        RepairStage::BomStripped => strip_bom(input),
        RepairStage::FenceStripped => strip_code_fence(input),
        RepairStage::FirstObjectExtracted => extract_first_json_object(input),
        RepairStage::TrailingCommaRemoved => strip_trailing_commas(input),
        RepairStage::BracketBalanced => balance_brackets(input),
    }
}

fn snippet_of(s: &str) -> (r: String)
    ensures
        r@ == snippet(s@),
{
    let v = chars_of(s);
    if v.len() <= 200 {
        string_of(&v)
    } else {
        let r = string_of_range(&v, 0, 200);
        assert(v@.subrange(0, 200) =~= v@.take(200));
        r
    }
}

/// A model's answer parsed after repair, with the stages that changed it.
#[derive(Debug)]
pub struct RepairOutcome {
    pub value: serde_json::Value,
    pub stages_applied: Vec<RepairStage>,
}

/// Parses a model's JSON answer, repairing it stage by stage: the text is parsed as it
/// is; then each stage in turn (byte-order mark, code fence, first object, trailing
/// commas, closing brackets) is applied, recorded when it changes the text, and the
/// changed text parsed; the first text that parses is the result. Fails when no text
/// parses, with the stages applied, the first 200 characters of the answer and of the
/// last text tried, and the parser's message on that text.
pub fn parse_with_repair(input: &str) -> (r: Result<RepairOutcome, RepairError>)
    ensures
        ({
            let (text, applied, parses) = repair_after(input@, REPAIR_STAGE_COUNT as nat);
            &&& r is Ok <==> parses
            &&& r matches Ok(o) ==> o.stages_applied@ == applied && json_parse(text) == Ok::<
                serde_json::Value,
                Seq<char>,
            >(o.value)
            &&& r matches Err(e) ==> {
                &&& e.stages_applied@ == applied
                &&& json_parse_error(text) == Some(e.parse_error@)
                &&& e.source_snippet@ == snippet(input@)
                &&& e.last_attempt_snippet@ == snippet(text)
            }
        }),
{
    let mut current = String::from_str(input);
    let mut last_error = match json_from_str(current.as_str()) {
        Ok(value) => {
            proof {
                lemma_repair_done_stays(input@, 0, REPAIR_STAGE_COUNT as nat);
            }
            return Ok(RepairOutcome { value, stages_applied: Vec::new() });
        },
        Err(e) => e,
    };
    let mut applied: Vec<RepairStage> = Vec::new();
    let mut k: usize = 0;
    while k < REPAIR_STAGE_COUNT
        invariant
            k <= REPAIR_STAGE_COUNT,
            repair_after(input@, k as nat) == (current@, applied@, false),
            json_parse_error(current@) == Some(last_error@),
        decreases REPAIR_STAGE_COUNT - k,
    {
        let stage = stage_at(k);
        let next = apply_stage_exec(stage, current.as_str());
        if !str_eq(next.as_str(), current.as_str()) {
            applied.push(stage);
            current = next;
            match json_from_str(current.as_str()) {
                Ok(value) => {
                    proof {
                        lemma_repair_done_stays(input@, (k + 1) as nat, REPAIR_STAGE_COUNT as nat);
                    }
                    return Ok(RepairOutcome { value, stages_applied: applied });
                },
                Err(e) => {
                    last_error = e;
                },
            }
        }
        k += 1;
    }
    Err(
        RepairError {
            stages_applied: applied,
            source_snippet: snippet_of(input),
            last_attempt_snippet: snippet_of(current.as_str()),
            parse_error: last_error,
        },
    )
}

} // verus!
