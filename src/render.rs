use vstd::prelude::*;

use crate::kind::{blanks_one_value, ProblemKind};
use crate::problem::{value_count, Problem};
use crate::random::RandomSource;

verus! {

/// The glyph of decimal digit `d`.
pub open spec fn digit_char(d: nat) -> char {
    if d == 0 { '0' }
    else if d == 1 { '1' }
    else if d == 2 { '2' }
    else if d == 3 { '3' }
    else if d == 4 { '4' }
    else if d == 5 { '5' }
    else if d == 6 { '6' }
    else if d == 7 { '7' }
    else if d == 8 { '8' }
    else { '9' }
}

pub open spec fn is_digit(c: char) -> bool {
    '0' <= c <= '9'
}

/// Decimal notation of `n`, most significant digit first, no leading zeros.
pub open spec fn decimal(n: nat) -> Seq<char>
    decreases n,
{
    if n < 10 {
        seq![digit_char(n)]
    } else {
        decimal(n / 10).push(digit_char(n % 10))
    }
}

/// The placeholder for a hidden operand: a framed empty box.
pub open spec fn boxed_blank_text() -> Seq<char> {
    "\\fbox{\\textcolor{white}{00}}"@
}

/// The placeholder for a hidden final value: an empty mark.
pub open spec fn trailing_blank_text() -> Seq<char> {
    "~"@
}

pub open spec fn is_placeholder(t: Seq<char>) -> bool {
    t == boxed_blank_text() || t == trailing_blank_text()
}

/// The token shown at position `i` of `values` when `blank` is hidden.
pub open spec fn token(values: Seq<u64>, blank: Option<usize>, i: int) -> Seq<char> {
    if blank matches Some(j) && j == i {
        if i + 1 < values.len() {
            boxed_blank_text()
        } else {
            trailing_blank_text()
        }
    } else {
        decimal(values[i] as nat)
    }
}

/// All tokens of `values` with `blank` hidden.
pub open spec fn rendered(values: Seq<u64>, blank: Option<usize>) -> Seq<Seq<char>> {
    Seq::new(values.len(), |i: int| token(values, blank, i))
}

pub open spec fn views_of(ts: Seq<String>) -> Seq<Seq<char>> {
    ts.map_values(|t: String| t@)
}

pub proof fn lemma_decimal_digits(n: nat)
    ensures
        decimal(n).len() > 0,
        forall|k: int| 0 <= k < decimal(n).len() ==> is_digit(#[trigger] decimal(n)[k]),
    decreases n,
{
    if n >= 10 {
        lemma_decimal_digits(n / 10);
    }
}

/// A numeral is never mistaken for a placeholder.
pub proof fn lemma_decimal_not_placeholder(n: nat)
    ensures
        !is_placeholder(decimal(n)),
{
    lemma_decimal_digits(n);
    reveal_strlit("\\fbox{\\textcolor{white}{00}}");
    reveal_strlit("~");
    assert(!is_digit(boxed_blank_text()[0]));
    assert(!is_digit(trailing_blank_text()[0]));
}

fn digit_str(d: u64) -> (r: &'static str)
    requires
        d < 10,
    ensures
        r@ == seq![digit_char(d as nat)],
{
    proof {
        reveal_strlit("0");
        reveal_strlit("1");
        reveal_strlit("2");
        reveal_strlit("3");
        reveal_strlit("4");
        reveal_strlit("5");
        reveal_strlit("6");
        reveal_strlit("7");
        reveal_strlit("8");
        reveal_strlit("9");
    }
    if d == 0 { "0" }
    else if d == 1 { "1" }
    else if d == 2 { "2" }
    else if d == 3 { "3" }
    else if d == 4 { "4" }
    else if d == 5 { "5" }
    else if d == 6 { "6" }
    else if d == 7 { "7" }
    else if d == 8 { "8" }
    else { "9" }
}

/// The decimal numeral of `n`.
pub fn decimal_string(n: u64) -> (r: String)
    ensures
        r@ == decimal(n as nat),
    decreases n,
{
    if n < 10 {
        String::from_str(digit_str(n))
    } else {
        let mut s = decimal_string(n / 10);
        s.append(digit_str(n % 10));
        s
    }
}

/// The token at position `i` of `values`, hiding position `blank` if any.
pub fn render_token(values: &Vec<u64>, blank: Option<usize>, i: usize) -> (r: String)
    requires
        i < values.len(),
    ensures
        r@ == token(values@, blank, i as int),
{
    let hidden = match blank {
        Some(j) => j == i,
        None => false,
    };
    if hidden {
        if i + 1 < values.len() {
            String::from_str("\\fbox{\\textcolor{white}{00}}")
        } else {
            String::from_str("~")
        }
    } else {
        decimal_string(values[i])
    }
}

/// Renders every value of a problem as a numeral, except the one at `blank`,
/// which becomes a placeholder.
pub fn render(values: &Vec<u64>, blank: Option<usize>) -> (r: Vec<String>)
    ensures
        r.len() == values.len(),
        views_of(r@) == rendered(values@, blank),
        forall|i: int|
            0 <= i < r.len() ==> (is_placeholder(#[trigger] r@[i]@) <==> (blank matches Some(j)
                && j == i)),
{
    let mut out: Vec<String> = Vec::new();
    let mut i: usize = 0;
    while i < values.len()
        invariant
            i <= values.len(),
            out.len() == i,
            forall|k: int| 0 <= k < i ==> #[trigger] out@[k]@ == token(values@, blank, k),
        decreases values.len() - i,
    {
        let t = render_token(values, blank, i);
        out.push(t);
        i = i + 1;
    }
    assert forall|k: int|
        0 <= k < out.len() implies (is_placeholder(#[trigger] out@[k]@) <==> (blank matches Some(j)
        && j == k)) by {
        if !(blank matches Some(j) && j == k) {
            lemma_decimal_not_placeholder(values@[k] as nat);
        }
    }
    assert(views_of(out@) =~= rendered(values@, blank));
    out
}

/// Rendering the same values with the same blank gives the same tokens,
/// however often it is done.
pub proof fn law_render_deterministic(
    values: Seq<u64>,
    blank: Option<usize>,
    first: Seq<String>,
    second: Seq<String>,
)
    requires
        views_of(first) == rendered(values, blank),
        views_of(second) == rendered(values, blank),
    ensures
        views_of(first) == views_of(second),
        first.len() == second.len(),
        forall|i: int| 0 <= i < first.len() ==> #[trigger] first[i]@ == second[i]@,
{
    assert(first.len() == views_of(first).len() && second.len() == views_of(second).len());
    assert forall|i: int| 0 <= i < first.len() implies #[trigger] first[i]@ == second[i]@ by {
        assert(views_of(first)[i] == views_of(second)[i]);
    }
}

/// Positions of `ts` that hold a placeholder.
pub open spec fn placeholder_positions(ts: Seq<Seq<char>>) -> Set<int> {
    Set::new(|i: int| 0 <= i < ts.len() && is_placeholder(ts[i]))
}

/// Rendering with a blank hides exactly that position, and rendering without
/// one hides nothing.
pub proof fn lemma_placeholder_positions(values: Seq<u64>, blank: Option<usize>)
    requires
        blank matches Some(j) ==> j < values.len(),
    ensures
        blank matches Some(j) ==> placeholder_positions(rendered(values, blank)) == set![j as int],
        blank is None ==> placeholder_positions(rendered(values, blank)) == Set::<int>::empty(),
{
    reveal_strlit("\\fbox{\\textcolor{white}{00}}");
    reveal_strlit("~");
    let ts = rendered(values, blank);
    assert forall|i: int| 0 <= i < ts.len() implies (is_placeholder(#[trigger] ts[i]) <==> (blank
        matches Some(j) && j == i)) by {
        if !(blank matches Some(j) && j == i) {
            lemma_decimal_not_placeholder(values[i] as nat);
        }
    }
    if let Some(j) = blank {
        assert(placeholder_positions(ts) =~= set![j as int]);
    } else {
        assert(placeholder_positions(ts) =~= Set::<int>::empty());
    }
}

/// Renders an accepted problem. Kinds that blank a value hide one position
/// chosen at random; the others show every value.
pub fn render_problem(p: &Problem, rng: &mut RandomSource) -> (r: Vec<String>)
    ensures
        blanks_one_value(p.kind) && p.values.len() > 0 ==> exists|j: usize|
            j < p.values.len() && views_of(r@) == #[trigger] rendered(p.values@, Some(j)),
        !blanks_one_value(p.kind) || p.values.len() == 0 ==> views_of(r@) == rendered(
            p.values@,
            None,
        ),
        blanks_one_value(p.kind) && p.values.len() > 0 ==> placeholder_positions(views_of(r@)).len()
            == 1,
        !blanks_one_value(p.kind) ==> placeholder_positions(views_of(r@)).len() == 0,
        !blanks_one_value(p.kind) || p.values.len() == 0 ==> *final(rng) == *old(rng),
{
    if p.kind.supports_blank() && p.values.len() > 0 {
        let j = rng.choose_index(p.values.len());
        let r = render(&p.values, Some(j));
        proof {
            lemma_placeholder_positions(p.values@, Some(j));
        }
        r
    } else {
        let r = render(&p.values, None);
        proof {
            lemma_placeholder_positions(p.values@, None);
        }
        r
    }
}

/// The markup of one grid cell for a problem of `kind` shown as tokens `t`.
pub open spec fn cell_text(kind: ProblemKind, t: Seq<Seq<char>>) -> Seq<char> {
    match kind {
        ProblemKind::SingleAddition => "$"@ + t[0] + "+"@ + t[1] + "$&$="@ + t[2] + "$"@,
        ProblemKind::SingleSubtraction => "$"@ + t[0] + "-"@ + t[1] + "$&$="@ + t[2] + "$"@,
        ProblemKind::ComparisonPair => t[0] + "&\\quad"@ + t[1],
        ProblemKind::ChainedAddition => "$"@ + t[0] + "+"@ + t[1] + "+"@ + t[2] + "$&="@,
        ProblemKind::ChainedSubtraction => "$"@ + t[0] + "-"@ + t[1] + "-"@ + t[2] + "$&="@,
    }
}

/// Lays out the tokens of a problem of `kind` as one grid cell.
pub fn cell_markup(kind: ProblemKind, t: &Vec<String>) -> (r: String)
    requires
        t.len() == value_count(kind),
    ensures
        r@ == cell_text(kind, views_of(t@)),
{
    match kind {
        ProblemKind::SingleAddition => {
            let mut s = String::from_str("$");
            s.append(t[0].as_str());
            s.append("+");
            s.append(t[1].as_str());
            s.append("$&$=");
            s.append(t[2].as_str());
            s.append("$");
            s
        },
        ProblemKind::SingleSubtraction => {
            let mut s = String::from_str("$");
            s.append(t[0].as_str());
            s.append("-");
            s.append(t[1].as_str());
            s.append("$&$=");
            s.append(t[2].as_str());
            s.append("$");
            s
        },
        ProblemKind::ComparisonPair => {
            let mut s = t[0].clone();
            s.append("&\\quad");
            s.append(t[1].as_str());
            s
        },
        ProblemKind::ChainedAddition => {
            let mut s = String::from_str("$");
            s.append(t[0].as_str());
            s.append("+");
            s.append(t[1].as_str());
            s.append("+");
            s.append(t[2].as_str());
            s.append("$&=");
            s
        },
        ProblemKind::ChainedSubtraction => {
            let mut s = String::from_str("$");
            s.append(t[0].as_str());
            s.append("-");
            s.append(t[1].as_str());
            s.append("-");
            s.append(t[2].as_str());
            s.append("$&=");
            s
        },
    }
}

/// A blank choice the renderer may make for a problem of `kind` with `n` values.
pub open spec fn blank_allowed(kind: ProblemKind, n: nat, blank: Option<usize>) -> bool {
    if blanks_one_value(kind) && n > 0 {
        blank matches Some(j) && j < n
    } else {
        blank is None
    }
}

/// `cell` is the markup of `p` under one of the blank choices allowed for it.
pub open spec fn shows(p: Problem, cell: Seq<char>) -> bool {
    exists|blank: Option<usize>|
        blank_allowed(p.kind, p.values@.len(), blank) && cell == #[trigger] cell_text(
            p.kind,
            rendered(p.values@, blank),
        )
}

/// Renders `p` and lays it out as one grid cell.
pub fn problem_cell(p: &Problem, rng: &mut RandomSource) -> (r: String)
    requires
        p.values.len() == value_count(p.kind),
    ensures
        shows(*p, r@),
        !blanks_one_value(p.kind) ==> *final(rng) == *old(rng),
{
    let t = render_problem(p, rng);
    let r = cell_markup(p.kind, &t);
    proof {
        if blanks_one_value(p.kind) {
            let j = choose|j: usize|
                j < p.values.len() && views_of(t@) == #[trigger] rendered(p.values@, Some(j));
            assert(blank_allowed(p.kind, p.values.len() as nat, Some(j)));
            assert(r@ == cell_text(p.kind, rendered(p.values@, Some(j))));
        } else {
            assert(blank_allowed(p.kind, p.values.len() as nat, None));
            assert(r@ == cell_text(p.kind, rendered(p.values@, None)));
        }
    }
    r
}

} // verus!
