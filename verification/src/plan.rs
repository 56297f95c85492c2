use crate::models::params::MarketType;
use crate::text::{
    decimal_value, digit_run, is_digit, same_text, trim, trimmed,
};
use vstd::prelude::*;
use vstd::string::*;

verus! {

/// How a requested interval is served: the interval to fetch, and how many
/// fetched candles make one candle of the requested interval.
#[derive(Debug, Clone)]
pub struct IntervalPlan {
    pub requested: String,
    pub source: String,
    pub factor: u32,
    pub needs_resample: bool,
}

/// A plan as contracts speak of it: the interval codes by their characters.
pub struct IntervalPlanView {
    pub requested: Seq<char>,
    pub source: Seq<char>,
    pub factor: u32,
    pub needs_resample: bool,
}

impl View for IntervalPlan {
    type V = IntervalPlanView;

    open spec fn view(&self) -> IntervalPlanView {
        IntervalPlanView {
            requested: self.requested@,
            source: self.source@,
            factor: self.factor,
            needs_resample: self.needs_resample,
        }
    }
}

/// The texts of a list of string slices.
pub open spec fn texts(list: Seq<&'static str>) -> Seq<Seq<char>> {
    Seq::new(list.len(), |i: int| list[i]@)
}

/// The tag under which a market's symbols are cached.
pub open spec fn market_prefix_spec(market: MarketType) -> Seq<char> {
    match market {
        MarketType::Crypto => "crypto"@,
        MarketType::Forex => "fx"@,
        MarketType::UsStock => "us"@,
        MarketType::KrStock => "kr"@,
    }
}

/// The tag under which a market's symbols are cached.
pub fn market_prefix(market: &MarketType) -> (r: &'static str)
    ensures
        r@ == market_prefix_spec(*market),
{
    match market {
        MarketType::Crypto => "crypto",
        MarketType::Forex => "fx",
        MarketType::UsStock => "us",
        MarketType::KrStock => "kr",
    }
}

/// The intervals that a market's provider serves, shortest first.
pub open spec fn native_intervals_spec(market: MarketType) -> Seq<Seq<char>> {
    match market {
        MarketType::Crypto => seq![
            "1m"@,
            "3m"@,
            "5m"@,
            "15m"@,
            "30m"@,
            "1h"@,
            "2h"@,
            "4h"@,
            "6h"@,
            "8h"@,
            "12h"@,
            "1d"@,
            "1w"@,
            "1M"@,
        ],
        _ => seq!["1m"@, "2m"@, "5m"@, "15m"@, "30m"@, "1h"@, "1d"@, "1w"@, "1M"@],
    }
}

/// The intervals that a market's provider serves, shortest first.
pub fn native_intervals(market: &MarketType) -> (r: &'static [&'static str])
    ensures
        texts(r@) == native_intervals_spec(*market),
{
    match market {
        MarketType::Crypto => {
            let r: &'static [&'static str] = &[
                "1m",
                "3m",
                "5m",
                "15m",
                "30m",
                "1h",
                "2h",
                "4h",
                "6h",
                "8h",
                "12h",
                "1d",
                "1w",
                "1M",
            ];
            assert(texts(r@) =~= native_intervals_spec(*market));
            r
        },
        MarketType::Forex | MarketType::UsStock | MarketType::KrStock => {
            let r: &'static [&'static str] = &[
                "1m",
                "2m",
                "5m",
                "15m",
                "30m",
                "1h",
                "1d",
                "1w",
                "1M",
            ];
            assert(texts(r@) =~= native_intervals_spec(*market));
            r
        },
    }
}

/// The seconds in one unit of an interval code, or zero where `c` is no
/// unit. A month counts as thirty days.
pub open spec fn unit_seconds(c: char) -> int {
    if c == 'm' {
        60
    } else if c == 'h' {
        3_600
    } else if c == 'd' {
        86_400
    } else if c == 'w' {
        604_800
    } else if c == 'M' {
        2_592_000
    } else {
        0
    }
}

/// The length in seconds of an interval code: white space around it is
/// dropped; what is left must be a run of digits, which gives the count,
/// and one character, which gives the unit. There is none where the
/// count is missing, zero, or so large that the seconds exceed `i64`,
/// where the unit is missing or unknown, or where anything follows the
/// unit.
pub open spec fn interval_seconds_spec(interval: Seq<char>) -> Option<i64> {
    let t = trimmed(interval);
    let d = digit_run(t, 0);
    let value = decimal_value(t, d);
    if d == 0 || t.len() != d + 1 || value == 0 || unit_seconds(t[d]) == 0 || value
        * unit_seconds(t[d]) > i64::MAX {
        None
    } else {
        Some((value * unit_seconds(t[d])) as i64)
    }
}

/// The length in seconds of an interval code, where it has one.
pub fn interval_seconds(interval: &str) -> (r: Option<i64>)
    ensures
        r == interval_seconds_spec(interval@),
{
    let t = trim(interval);
    let n = t.unicode_len();
    let mut d: usize = 0;
    let mut value: i64 = 0;
    let mut overflow = false;
    while d < n && is_digit(t.get_char(d))
        invariant
            d <= n,
            n == t@.len(),
            digit_run(t@, 0) == digit_run(t@, d as int),
            forall|k: int| 0 <= k < d ==> is_digit(t@[k]),
            value >= 0,
            !overflow ==> value == decimal_value(t@, d as int),
            overflow ==> decimal_value(t@, d as int) > i64::MAX,
        decreases n - d,
    {
        let c = t.get_char(d);
        let digit: i64 = (c as u32 - '0' as u32) as i64;
        if !overflow {
            match value.checked_mul(10) {
                Some(tenfold) => match tenfold.checked_add(digit) {
                    Some(next) => {
                        value = next;
                    },
                    None => {
                        overflow = true;
                    },
                },
                None => {
                    overflow = true;
                },
            }
        }
        d += 1;
    }
    if d == 0 || overflow || d >= n || n - d != 1 || value == 0 {
        return None;
    }
    let unit = t.get_char(d);
    let seconds: i64 = if unit == 'm' {
        60
    } else if unit == 'h' {
        3_600
    } else if unit == 'd' {
        86_400
    } else if unit == 'w' {
        604_800
    } else if unit == 'M' {
        2_592_000
    } else {
        return None;
    };
    value.checked_mul(seconds)
}

/// The interval that a request names: its text without the white space
/// around it, or one day where nothing is left.
pub open spec fn normalized(interval: Seq<char>) -> Seq<char> {
    if trimmed(interval).len() == 0 {
        "1d"@
    } else {
        trimmed(interval)
    }
}

/// Whether the `i`-th native interval fits a whole number of times into
/// `target` seconds.
pub open spec fn divides(native: Seq<Seq<char>>, target: int, i: int) -> bool {
    match interval_seconds_spec(native[i]) {
        Some(s) => s <= target && target % (s as int) == 0,
        None => false,
    }
}

/// The seconds of the `i`-th native interval, or zero where it has none.
pub open spec fn native_seconds(native: Seq<Seq<char>>, i: int) -> int {
    match interval_seconds_spec(native[i]) {
        Some(s) => s as int,
        None => 0,
    }
}

/// Among the first `n` native intervals, the index of the longest that
/// divides `target` (the first of them, where several are as long), or
/// `-1` where none divides it.
pub open spec fn best_divisor(native: Seq<Seq<char>>, target: int, n: int) -> int
    decreases n,
{
    if n <= 0 {
        -1
    } else {
        let prev = best_divisor(native, target, n - 1);
        if divides(native, target, n - 1) && (prev < 0 || native_seconds(native, n - 1)
            > native_seconds(native, prev)) {
            n - 1
        } else {
            prev
        }
    }
}

/// The plan that every unparseable request falls back to: daily candles
/// as they come.
pub open spec fn daily_plan() -> IntervalPlanView {
    IntervalPlanView { requested: "1d"@, source: "1d"@, factor: 1, needs_resample: false }
}

/// The factor of a plan whose requested interval is `quotient` times as
/// long as its source: the quotient itself, or the greatest `u32` where
/// the quotient exceeds it.
pub open spec fn plan_factor(quotient: int) -> u32 {
    if quotient > u32::MAX {
        u32::MAX
    } else {
        quotient as u32
    }
}

/// The plan for a requested interval on a market.
///
/// A native interval is served as it is. Any other is served from the
/// longest native interval that divides it, with the quotient as factor.
/// A request that cannot be read is answered with the daily plan.
pub open spec fn plan_spec(interval: Seq<char>, market: MarketType) -> IntervalPlanView {
    let requested = normalized(interval);
    let native = native_intervals_spec(market);
    if native.contains(requested) {
        IntervalPlanView { requested, source: requested, factor: 1, needs_resample: false }
    } else {
        match interval_seconds_spec(requested) {
            None => daily_plan(),
            Some(target) => {
                let best = best_divisor(native, target as int, native.len() as int);
                if best < 0 {
                    IntervalPlanView {
                        requested,
                        source: native[0],
                        factor: 1,
                        needs_resample: false,
                    }
                } else {
                    IntervalPlanView {
                        requested,
                        source: native[best],
                        factor: plan_factor((target as int) / native_seconds(native, best)),
                        needs_resample: true,
                    }
                }
            },
        }
    }
}

/// The best divisor is one of the intervals looked at, and divides the
/// target.
pub proof fn lemma_best_divisor_bounds(native: Seq<Seq<char>>, target: int, n: int)
    requires
        0 <= n <= native.len(),
    ensures
        -1 <= best_divisor(native, target, n) < n,
        best_divisor(native, target, n) >= 0 ==> divides(
            native,
            target,
            best_divisor(native, target, n),
        ),
    decreases n,
{
    if n > 0 {
        lemma_best_divisor_bounds(native, target, n - 1);
    }
}

/// Among the first `n` native intervals there is a best divisor as soon
/// as one of them divides the target.
pub proof fn lemma_best_divisor_exists(native: Seq<Seq<char>>, target: int, i: int, n: int)
    requires
        0 <= i < n <= native.len(),
        divides(native, target, i),
    ensures
        best_divisor(native, target, n) >= 0,
    decreases n,
{
    lemma_best_divisor_bounds(native, target, n - 1);
    if i < n - 1 {
        lemma_best_divisor_exists(native, target, i, n - 1);
    }
}

/// The best divisor is the longest native interval that divides the
/// target.
pub proof fn lemma_best_divisor_is_longest(native: Seq<Seq<char>>, target: int, i: int, n: int)
    requires
        0 <= i < n <= native.len(),
        divides(native, target, i),
    ensures
        native_seconds(native, i) <= native_seconds(
            native,
            best_divisor(native, target, n),
        ),
    decreases n,
{
    lemma_best_divisor_bounds(native, target, n - 1);
    if i < n - 1 {
        lemma_best_divisor_exists(native, target, i, n - 1);
        lemma_best_divisor_is_longest(native, target, i, n - 1);
    }
}

/// One minute is sixty seconds.
pub proof fn lemma_one_minute()
    ensures
        interval_seconds_spec("1m"@) == Some(60i64),
{
    reveal_strlit("1m");
    let s = "1m"@;
    reveal_with_fuel(crate::text::skip_spaces, 2);
    reveal_with_fuel(crate::text::drop_spaces, 2);
    reveal_with_fuel(digit_run, 3);
    reveal_with_fuel(decimal_value, 3);
    assert(!crate::text::is_space_spec(s[0]));
    assert(!crate::text::is_space_spec(s[1]));
    assert(trimmed(s) =~= s);
    assert(digit_run(s, 0) == 1);
    assert(decimal_value(s, 1) == 1);
}

/// Every interval that has a length is a whole number of minutes.
pub proof fn lemma_seconds_are_whole_minutes(interval: Seq<char>)
    ensures
        match interval_seconds_spec(interval) {
            Some(s) => s >= 60 && s % 60 == 0,
            None => true,
        },
{
    let t = trimmed(interval);
    let d = digit_run(t, 0);
    let value = decimal_value(t, d) as int;
    if interval_seconds_spec(interval).is_some() {
        let unit = unit_seconds(t[d]);
        assert(value >= 1);
        assert(unit == 60 || unit == 3_600 || unit == 86_400 || unit == 604_800 || unit
            == 2_592_000);
        assert(value * unit >= 60 && (value * unit) % 60 == 0) by (nonlinear_arith)
            requires
                value >= 1,
                unit == 60 || unit == 3_600 || unit == 86_400 || unit == 604_800 || unit
                    == 2_592_000,
        ;
    }
}

/// What a plan promises. Without resampling the source is the requested
/// interval itself. With resampling the source is one of the market's
/// native intervals and divides the requested interval, no native
/// interval that divides it is longer, and the requested interval is
/// exactly `factor` times as long as the source wherever that many fit
/// `u32`; where they do not, the factor is the greatest `u32`.
pub proof fn lemma_plan_is_sound(interval: Seq<char>, market: MarketType)
    ensures
        ({
            let plan = plan_spec(interval, market);
            let native = native_intervals_spec(market);
            &&& plan.factor >= 1
            &&& !plan.needs_resample ==> plan.source == plan.requested && plan.factor == 1
            &&& plan.needs_resample ==> native.contains(plan.source) && (match (
                interval_seconds_spec(plan.requested),
                interval_seconds_spec(plan.source),
            ) {
                (Some(wanted), Some(had)) => {
                    &&& had > 0
                    &&& (wanted as int) % (had as int) == 0
                    &&& (wanted as int) / (had as int) <= u32::MAX ==> wanted == plan.factor * had
                    &&& (wanted as int) / (had as int) > u32::MAX ==> plan.factor == u32::MAX
                    &&& forall|i: int|
                        0 <= i < native.len() && #[trigger] divides(native, wanted as int, i)
                            ==> native_seconds(native, i) <= had
                },
                _ => false,
            })
        }),
{
    let requested = normalized(interval);
    let native = native_intervals_spec(market);
    if !native.contains(requested) {
        if let Some(target) = interval_seconds_spec(requested) {
            lemma_one_minute();
            lemma_seconds_are_whole_minutes(requested);
            assert(native[0] == "1m"@);
            assert(divides(native, target as int, 0));
            lemma_best_divisor_exists(native, target as int, 0, native.len() as int);
            lemma_best_divisor_bounds(native, target as int, native.len() as int);
            let best = best_divisor(native, target as int, native.len() as int);
            let had = native_seconds(native, best);
            lemma_seconds_are_whole_minutes(native[best]);
            assert(had >= 60);
            assert(target as int == (target as int / had) * had && target as int / had >= 1) by {
                vstd::arithmetic::div_mod::lemma_fundamental_div_mod(target as int, had);
                assert(had * (target as int / had) == (target as int / had) * had)
                    by (nonlinear_arith);
                assert(target as int / had >= 1) by (nonlinear_arith)
                    requires
                        had > 0,
                        target as int >= had,
                        target as int == had * (target as int / had) + (target as int) % had,
                        (target as int) % had == 0,
                ;
            }
            assert(native.contains(native[best]));
            assert forall|i: int|
                0 <= i < native.len() && #[trigger] divides(native, target as int, i) implies native_seconds(
                native,
                i,
            ) <= had by {
                lemma_best_divisor_is_longest(native, target as int, i, native.len() as int);
            }
        }
    }
}

fn daily() -> (plan: IntervalPlan)
    ensures
        plan@ == daily_plan(),
{
    IntervalPlan {
        requested: "1d".to_owned(),
        source: "1d".to_owned(),
        factor: 1,
        needs_resample: false,
    }
}

/// The plan for a requested interval on a market.
pub fn resolve_interval_plan(interval: &str, market: &MarketType) -> (plan: IntervalPlan)
    ensures
        plan@ == plan_spec(interval@, *market),
{
    let trimmed_text = trim(interval);
    let requested: &str = if trimmed_text.unicode_len() == 0 {
        "1d"
    } else {
        trimmed_text
    };
    assert(requested@ == normalized(interval@));
    let native = native_intervals(market);
    let ghost native_texts = native_intervals_spec(*market);
    assert(native_texts.len() > 0);
    assert(native@.len() == native_texts.len());
    assert(forall|k: int| 0 <= k < native@.len() ==> native@[k]@ == #[trigger] native_texts[k]) by {
        assert forall|k: int| 0 <= k < native@.len() implies native@[k]@
            == #[trigger] native_texts[k] by {
            assert(texts(native@)[k] == native@[k]@);
        }
    }
    let mut i: usize = 0;
    while i < native.len()
        invariant
            i <= native@.len(),
            native@.len() == native_texts.len(),
            forall|k: int| 0 <= k < native@.len() ==> native@[k]@ == #[trigger] native_texts[k],
            forall|k: int| 0 <= k < i ==> native_texts[k] != requested@,
            native_texts == native_intervals_spec(*market),
            requested@ == normalized(interval@),
        decreases native@.len() - i,
    {
        if same_text(native[i], requested) {
            assert(native_texts[i as int] == requested@);
            assert(native_texts.contains(requested@));
            return IntervalPlan {
                requested: requested.to_owned(),
                source: requested.to_owned(),
                factor: 1,
                needs_resample: false,
            };
        }
        i += 1;
    }
    assert(!native_texts.contains(requested@));
    let target = match interval_seconds(requested) {
        Some(t) => t,
        None => {
            return daily();
        },
    };
    let mut found = false;
    let mut best: usize = 0;
    let mut best_seconds: i64 = 86_400;
    let mut j: usize = 0;
    while j < native.len()
        invariant
            j <= native@.len(),
            native@.len() == native_texts.len(),
            forall|k: int| 0 <= k < native@.len() ==> native@[k]@ == #[trigger] native_texts[k],
            found ==> best < j && best_seconds == native_seconds(native_texts, best as int)
                && divides(native_texts, target as int, best as int),
            best_divisor(native_texts, target as int, j as int) == (if found {
                best as int
            } else {
                -1
            }),
        decreases native@.len() - j,
    {
        let candidate = native[j];
        assert(candidate@ == native_texts[j as int]);
        match interval_seconds(candidate) {
            Some(seconds) => {
                if seconds <= target && target % seconds == 0 && (!found || seconds
                    > best_seconds) {
                    found = true;
                    best = j;
                    best_seconds = seconds;
                }
            },
            None => {},
        }
        j += 1;
    }
    if !found {
        return IntervalPlan {
            requested: requested.to_owned(),
            source: native[0].to_owned(),
            factor: 1,
            needs_resample: false,
        };
    }
    let quotient = target / best_seconds;
    let factor: u32 = if quotient > u32::MAX as i64 {
        u32::MAX
    } else {
        quotient as u32
    };
    IntervalPlan {
        requested: requested.to_owned(),
        source: native[best].to_owned(),
        factor,
        needs_resample: true,
    }
}

/// The most candles that a market's provider hands out at once.
pub open spec fn max_source_candles(market: MarketType) -> int {
    match market {
        MarketType::Crypto => 1_000,
        _ => 2_500,
    }
}

/// The number of source candles to fetch for `output_limit` candles of the
/// requested interval: one more bucket's worth than the factor asks for,
/// so that the last bucket fills, held between the output limit and the
/// market's maximum.
pub open spec fn source_limit_spec(output_limit: int, factor: int, market: MarketType) -> int {
    let widened = output_limit * ((if factor < 1 {
        1
    } else {
        factor
    }) + 1);
    if widened < output_limit {
        output_limit
    } else if widened > max_source_candles(market) {
        max_source_candles(market)
    } else {
        widened
    }
}

/// The number of source candles to fetch for `output_limit` candles of the
/// requested interval. The output limit must not exceed the market's
/// maximum.
pub fn requested_source_limit(output_limit: u32, plan: &IntervalPlan, market: &MarketType) -> (r:
    u32)
    requires
        output_limit <= max_source_candles(*market),
    ensures
        r == source_limit_spec(output_limit as int, plan.factor as int, *market),
{
    let factor: u64 = if plan.factor < 1 {
        1
    } else {
        plan.factor as u64
    };
    assert(output_limit as u64 * (factor + 1) <= u64::MAX) by (nonlinear_arith)
        requires
            output_limit <= 2_500,
            factor <= 0xffff_ffff,
    ;
    let widened: u64 = output_limit as u64 * (factor + 1);
    let most: u64 = match market {
        MarketType::Crypto => 1_000,
        MarketType::Forex | MarketType::UsStock | MarketType::KrStock => 2_500,
    };
    if widened < output_limit as u64 {
        output_limit
    } else if widened > most {
        most as u32
    } else {
        widened as u32
    }
}

/// The name under which a symbol of a market is cached: the market's
/// prefix, a colon, and the symbol.
pub open spec fn cache_symbol_spec(market: MarketType, symbol: Seq<char>) -> Seq<char> {
    market_prefix_spec(market) + seq![':'] + symbol
}

/// The name under which a symbol of a market is cached.
pub fn cache_symbol(market: &MarketType, symbol: &str) -> (r: String)
    ensures
        r@ == cache_symbol_spec(*market, symbol@),
{
    let mut name = market_prefix(market).to_owned();
    name.append(":");
    name.append(symbol);
    proof {
        reveal_strlit(":");
        assert(":"@ =~= seq![':']);
    }
    name
}

/// What to fetch for a request, and under which name it is cached.
#[derive(Debug, Clone)]
pub struct SourceRequest {
    pub cache_symbol: String,
    pub plan: IntervalPlan,
    pub limit: u32,
}

/// What to fetch for `output_limit` candles of an interval: the plan for
/// the interval, the number of source candles, and the cache name of the
/// symbol. There is none for an output limit above the market's maximum.
pub fn source_request(symbol: &str, interval: &str, market: &MarketType, output_limit: u32) -> (r:
    Option<SourceRequest>)
    ensures
        match r {
            Some(request) => {
                &&& output_limit <= max_source_candles(*market)
                &&& request.cache_symbol@ == cache_symbol_spec(*market, symbol@)
                &&& request.plan@ == plan_spec(interval@, *market)
                &&& request.limit == source_limit_spec(
                    output_limit as int,
                    plan_spec(interval@, *market).factor as int,
                    *market,
                )
            },
            None => output_limit > max_source_candles(*market),
        },
{
    let most: u32 = match market {
        MarketType::Crypto => 1_000,
        MarketType::Forex | MarketType::UsStock | MarketType::KrStock => 2_500,
    };
    if output_limit > most {
        return None;
    }
    let plan = resolve_interval_plan(interval, market);
    let limit = requested_source_limit(output_limit, &plan, market);
    Some(SourceRequest { cache_symbol: cache_symbol(market, symbol), plan, limit })
}

} // verus!
