//! Market bookkeeping that does not depend on prices: coin names and their
//! numbers, finding coins, the price-chart window, trend memory, share
//! cooldowns, coin ages and how often mining progress is announced.
use vstd::prelude::*;
use std::collections::VecDeque;
use crate::text::{decimal, find_char, find_char_exec, lemma_digit_char, lemma_find_char, lemma_find_char_skip, push_decimal};

verus! {

/// How many points a price series and its label row keep.
pub const MAX_SERIES_LENGTH: usize = 96;

/// Appends `x` to a series that keeps at most `cap` points, dropping the
/// oldest point when it would overflow.
pub fn push_windowed<T>(v: &mut Vec<T>, x: T, cap: usize)
    ensures
        final(v)@ == if old(v)@.len() + 1 > cap {
            old(v)@.push(x).drop_first()
        } else {
            old(v)@.push(x)
        },
{
    v.push(x);
    if v.len() > cap {
        v.remove(0);
        assert(v@ =~= old(v)@.push(x).drop_first());
    }
}

/// Law: a series filled only through `push_windowed` never holds more than
/// `cap` points (when `cap` is at least one), and its newest point is the
/// one just added.
pub proof fn lemma_window_bounded<T>(s: Seq<T>, x: T, cap: int)
    requires
        cap >= 1,
        s.len() <= cap,
    ensures
        ({
            let t = if s.len() + 1 > cap { s.push(x).drop_first() } else { s.push(x) };
            t.len() <= cap && t.last() == x
        }),
{
}

/// The trend memory after a price move: the newest move first, at most four kept.
pub open spec fn spec_recorded(dirs: Seq<bool>, up: bool) -> Seq<bool> {
    let d = seq![up] + dirs;
    if d.len() > 4 { d.subrange(0, d.len() - 1) } else { d }
}

/// Remembers whether the price went up, newest first, keeping four moves.
pub fn record_trend(dirs: &mut VecDeque<bool>, up: bool)
    ensures
        final(dirs)@ == spec_recorded(old(dirs)@, up),
{
    dirs.push_front(up);
    if dirs.len() > 4 {
        dirs.pop_back();
    }
}

/// Law: a trend memory of at most four moves stays at most four moves long
/// after a move is recorded; the new move comes first and the older ones
/// follow in their order.
pub proof fn lemma_trend_memory_bounded(dirs: Seq<bool>, up: bool)
    requires
        dirs.len() <= 4,
    ensures
        spec_recorded(dirs, up).len() <= 4,
        spec_recorded(dirs, up).len() >= 1,
        spec_recorded(dirs, up)[0] == up,
        forall|i: int|
            1 <= i < spec_recorded(dirs, up).len() ==> #[trigger] spec_recorded(dirs, up)[i]
                == dirs[i - 1],
{
}

/// Which way the next trend correction leans.
#[derive(Clone, Copy, Debug, PartialEq, Eq, Structural)]
pub enum TrendBias {
    /// Every remembered move was up: lean downwards.
    Overheated,
    /// Every remembered move was down: lean upwards.
    Oversold,
    /// Mixed moves: no lean.
    Mixed,
}

/// The lean that the remembered moves call for; an empty memory counts as
/// all moves up.
pub open spec fn spec_trend_bias(dirs: Seq<bool>) -> TrendBias {
    if forall|i: int| 0 <= i < dirs.len() ==> #[trigger] dirs[i] {
        TrendBias::Overheated
    } else if forall|i: int| 0 <= i < dirs.len() ==> !#[trigger] dirs[i] {
        TrendBias::Oversold
    } else {
        TrendBias::Mixed
    }
}

/// Law: the lean looks at every remembered move, however many: it is
/// downwards exactly when no move was down, upwards exactly when some move
/// was down and none was up, and there is none exactly when the memory
/// holds both an up and a down move.
pub proof fn lemma_trend_bias_whole_memory(dirs: Seq<bool>)
    ensures
        spec_trend_bias(dirs) == TrendBias::Overheated <==> !dirs.contains(false),
        spec_trend_bias(dirs) == TrendBias::Oversold <==> dirs.contains(false) && !dirs.contains(true),
        spec_trend_bias(dirs) == TrendBias::Mixed <==> dirs.contains(true) && dirs.contains(false),
{
    if dirs.contains(false) {
        let i = choose|i: int| 0 <= i < dirs.len() && dirs[i] == false;
        assert(!dirs[i]);
    }
    if dirs.contains(true) {
        let i = choose|i: int| 0 <= i < dirs.len() && dirs[i] == true;
        assert(dirs[i]);
    }
    if !dirs.contains(false) {
        assert forall|i: int| 0 <= i < dirs.len() implies #[trigger] dirs[i] by {
            if !dirs[i] {
                assert(dirs.contains(false));
            }
        }
    }
    if !dirs.contains(true) {
        assert forall|i: int| 0 <= i < dirs.len() implies !#[trigger] dirs[i] by {
            if dirs[i] {
                assert(dirs.contains(true));
            }
        }
    }
}

/// The lean that the remembered moves call for.
pub fn trend_bias(dirs: &VecDeque<bool>) -> (b: TrendBias)
    ensures
        b == spec_trend_bias(dirs@),
{
    let mut all_up = true;
    let mut all_down = true;
    let mut i: usize = 0;
    while i < dirs.len()
        invariant
            0 <= i <= dirs@.len(),
            all_up == (forall|k: int| 0 <= k < i ==> #[trigger] dirs@[k]),
            all_down == (forall|k: int| 0 <= k < i ==> !#[trigger] dirs@[k]),
        decreases dirs@.len() - i,
    {
        let d = dirs[i];
        if !d {
            all_up = false;
        } else {
            all_down = false;
        }
        i = i + 1;
    }
    if all_up {
        TrendBias::Overheated
    } else if all_down {
        TrendBias::Oversold
    } else {
        TrendBias::Mixed
    }
}

/// The name of the coin with number `index`: `Coin-` and the number.
pub open spec fn spec_coin_name(index: nat) -> Seq<char> {
    "Coin-"@ + decimal(index)
}

/// Names the coin with number `index`.
pub fn coin_name(index: u64) -> (s: String)
    ensures
        s@ == spec_coin_name(index as nat),
{
    let mut s = String::from_str("Coin-");
    push_decimal(&mut s, index);
    s
}

/// Whether `c` is a decimal digit.
pub open spec fn is_digit(c: char) -> bool {
    '0' <= c <= '9'
}

/// The value of a run of decimal digits.
pub open spec fn digits_value(s: Seq<char>) -> int
    decreases s.len(),
{
    if s.len() == 0 {
        0
    } else {
        digits_value(s.drop_last()) * 10 + (s.last() as int - '0' as int)
    }
}

/// A run of one or more digits whose value fits in 64 bits, read as a number.
pub open spec fn spec_parse_digits(d: Seq<char>) -> Option<u64> {
    if d.len() > 0 && (forall|i: int| 0 <= i < d.len() ==> is_digit(#[trigger] d[i]))
        && digits_value(d) <= u64::MAX {
        Some(digits_value(d) as u64)
    } else {
        None
    }
}

/// `s` without a leading `+`, when something follows the `+`.
pub open spec fn strip_plus(s: Seq<char>) -> Seq<char> {
    if s.len() > 1 && s[0] == '+' { s.drop_first() } else { s }
}

/// What reading `s` as an unsigned 64-bit number gives: an optional `+`,
/// then one or more digits of a value that fits.
pub open spec fn spec_parse_u64(s: Seq<char>) -> Option<u64> {
    spec_parse_digits(strip_plus(s))
}

/// The second of the `-`-separated fields of `s`, if it has one.
pub open spec fn second_field(s: Seq<char>) -> Option<Seq<char>> {
    match find_char(s, '-', 0) {
        Some(i) => {
            let rest = s.skip(i + 1);
            match find_char(rest, '-', 0) {
                Some(j) => Some(rest.take(j)),
                None => Some(rest),
            }
        },
        None => None,
    }
}

/// The coin number a name carries in its second `-` field.
pub open spec fn spec_coin_name_index(name: Seq<char>) -> Option<u64> {
    match second_field(name) {
        Some(f) => spec_parse_u64(f),
        None => None,
    }
}

/// Reads the digits of `s` from `start` to `end` (after an optional `+`) as
/// an unsigned 64-bit number.
pub(crate) fn parse_u64_range(s: &str, start: usize, end: usize) -> (r: Option<u64>)
    requires
        start <= end <= s@.len(),
    ensures
        r == spec_parse_u64(s@.subrange(start as int, end as int)),
{
    let ghost f = s@.subrange(start as int, end as int);
    let mut i = start;
    if end - start > 1 && s.get_char(start) == '+' {
        i = start + 1;
    }
    let ghost d = s@.subrange(i as int, end as int);
    assert(d =~= strip_plus(f));
    if i == end {
        return None;
    }
    let mut value: u64 = 0;
    let mut j = i;
    while j < end
        invariant
            start <= i <= j <= end <= s@.len(),
            d == s@.subrange(i as int, end as int),
            d == strip_plus(s@.subrange(start as int, end as int)),
            forall|k: int| i <= k < j ==> is_digit(#[trigger] s@[k]),
            value == digits_value(s@.subrange(i as int, j as int)),
        decreases end - j,
    {
        let c = s.get_char(j);
        if !('0' <= c && c <= '9') {
            assert(d[j - i] == c);
            assert(!is_digit(d[j - i]));
            return None;
        }
        let digit: u64 = (c as u32 - '0' as u32) as u64;
        assert(s@.subrange(i as int, j + 1).drop_last() =~= s@.subrange(i as int, j as int));
        if value > (u64::MAX - digit) / 10 {
            proof {
                assert(value * 10 + digit > u64::MAX) by (nonlinear_arith)
                    requires
                        value > (u64::MAX - digit) / 10,
                        digit <= 9,
                ;
                assert(digits_value(s@.subrange(i as int, j + 1)) == value * 10 + digit);
                if forall|k: int| 0 <= k < d.len() ==> is_digit(#[trigger] d[k]) {
                    lemma_digits_value_prefix_bound(d, j + 1 - i);
                    assert(s@.subrange(i as int, j + 1) =~= d.take(j + 1 - i));
                }
            }
            return None;
        }
        value = value * 10 + digit;
        j = j + 1;
    }
    assert(s@.subrange(i as int, j as int) =~= d);
    Some(value)
}

/// A run of digits is worth at least any of its prefixes.
proof fn lemma_digits_value_prefix_bound(d: Seq<char>, n: int)
    requires
        0 <= n <= d.len(),
        forall|i: int| 0 <= i < d.len() ==> is_digit(#[trigger] d[i]),
    ensures
        digits_value(d.take(n)) <= digits_value(d),
        0 <= digits_value(d.take(n)),
    decreases d.len() - n,
{
    lemma_digits_value_nonneg(d.take(n));
    if n < d.len() {
        lemma_digits_value_prefix_bound(d, n + 1);
        assert(d.take(n + 1).drop_last() =~= d.take(n));
        assert(is_digit(d[n]));
    } else {
        assert(d.take(n) =~= d);
    }
}

proof fn lemma_digits_value_nonneg(d: Seq<char>)
    requires
        forall|i: int| 0 <= i < d.len() ==> is_digit(#[trigger] d[i]),
    ensures
        digits_value(d) >= 0,
    decreases d.len(),
{
    if d.len() > 0 {
        lemma_digits_value_nonneg(d.drop_last());
        assert(is_digit(d[d.len() - 1]));
    }
}

/// The coin number carried by a coin's name, in its second `-` field.
pub fn coin_name_index(name: &str) -> (r: Option<u64>)
    ensures
        r == spec_coin_name_index(name@),
{
    let len = name.unicode_len();
    match find_char_exec(name, len, '-', 0) {
        None => None,
        Some(i) => {
            let end = match find_char_exec(name, len, '-', i + 1) {
                Some(j) => j,
                None => len,
            };
            proof {
                lemma_find_char(name@, '-', 0);
                lemma_find_char(name@, '-', i + 1);
                lemma_find_char_skip(name@, '-', i + 1, 0);
                let rest = name@.skip(i + 1);
                match find_char(rest, '-', 0) {
                    Some(j) => {
                        assert(rest.take(j) =~= name@.subrange(i + 1, end as int));
                    },
                    None => {
                        assert(rest =~= name@.subrange(i + 1, end as int));
                    },
                }
            }
            parse_u64_range(name, i + 1, end)
        },
    }
}

/// Decimal renderings are non-empty runs of digits worth the number rendered.
pub proof fn lemma_decimal_digits(n: nat)
    ensures
        decimal(n).len() > 0,
        forall|i: int| 0 <= i < decimal(n).len() ==> is_digit(#[trigger] decimal(n)[i]),
        digits_value(decimal(n)) == n,
    decreases n,
{
    lemma_digit_char(n % 10);
    if n >= 10 {
        lemma_decimal_digits(n / 10);
        let d = decimal(n);
        assert(d.drop_last() =~= decimal(n / 10));
        assert(d.last() as int - '0' as int == n % 10);
        assert(digits_value(d) == digits_value(d.drop_last()) * 10 + (d.last() as int - '0' as int));
        assert(digits_value(d) == (n / 10) * 10 + n % 10);
        assert(digits_value(d) == n);
        assert forall|i: int| 0 <= i < d.len() implies is_digit(#[trigger] d[i]) by {
            if i < d.len() - 1 {
                assert(d[i] == decimal(n / 10)[i]);
            }
        }
    } else {
        let d = decimal(n);
        assert(d.drop_last() =~= Seq::<char>::empty());
        assert(d.last() as int - '0' as int == n % 10);
        assert(digits_value(d) == digits_value(d.drop_last()) * 10 + (d.last() as int - '0' as int));
        assert(digits_value(d) == n);
    }
}

/// Law: coins are named `Coin-` followed by their number in decimal, and a
/// price chart keeps 96 points.
pub proof fn lemma_coin_name_form(index: nat)
    ensures
        spec_coin_name(index).take(5) == "Coin-"@,
        spec_coin_name(index).skip(5) == decimal(index),
        MAX_SERIES_LENGTH == 96,
{
    reveal_strlit("Coin-");
    assert(spec_coin_name(index).take(5) =~= "Coin-"@);
    assert(spec_coin_name(index).skip(5) =~= decimal(index));
}

/// Law: a coin's number can be read back from the name it is given.
pub proof fn lemma_coin_name_round_trip(index: u64)
    ensures
        spec_coin_name_index(spec_coin_name(index as nat)) == Some(index),
{
    reveal_strlit("Coin-");
    let s = spec_coin_name(index as nat);
    let d = decimal(index as nat);
    lemma_decimal_digits(index as nat);
    assert(s[4] == '-');
    assert(find_char(s, '-', 4) == Some(4int));
    assert(find_char(s, '-', 3) == Some(4int));
    assert(find_char(s, '-', 2) == Some(4int));
    assert(find_char(s, '-', 1) == Some(4int));
    assert(find_char(s, '-', 0) == Some(4int));
    let rest = s.skip(5);
    assert(rest =~= d);
    lemma_find_char(rest, '-', 0);
    if let Some(j) = find_char(rest, '-', 0) {
        assert(is_digit(d[j]));
    }
    assert(is_digit(d[0]));
    assert(strip_plus(d) == d);
}

/// The position of the first coin whose name is `name`.
pub open spec fn first_named(names: Seq<Seq<char>>, name: Seq<char>, i: int) -> Option<int>
    decreases names.len() - i,
{
    if i < 0 || i >= names.len() {
        None
    } else if names[i] == name {
        Some(i)
    } else {
        first_named(names, name, i + 1)
    }
}

/// The names of a list of coins, as character sequences.
pub open spec fn name_views(names: Seq<String>) -> Seq<Seq<char>> {
    names.map_values(|s: String| s@)
}

/// The position of the first coin named `name`, as the market finds coins.
pub fn position_by_name(names: &Vec<String>, name: &String) -> (r: Option<usize>)
    ensures
        r matches Some(i) ==> first_named(name_views(names@), name@, 0) == Some(i as int),
        r is None ==> first_named(name_views(names@), name@, 0) is None,
{
    let ghost v = name_views(names@);
    let mut i: usize = 0;
    while i < names.len()
        invariant
            v == name_views(names@),
            0 <= i <= names@.len(),
            first_named(v, name@, 0) == first_named(v, name@, i as int),
        decreases names@.len() - i,
    {
        if names[i] == *name {
            assert(v[i as int] == name@);
            return Some(i);
        }
        assert(v[i as int] == names@[i as int]@);
        i = i + 1;
    }
    None
}

/// The position of the first coin whose name carries the number `target`,
/// looking from position `i` on.
pub open spec fn first_numbered(names: Seq<Seq<char>>, target: u64, i: int) -> Option<int>
    decreases names.len() - i,
{
    if i < 0 || i >= names.len() {
        None
    } else if spec_coin_name_index(names[i]) == Some(target) {
        Some(i)
    } else {
        first_numbered(names, target, i + 1)
    }
}

/// Whether every name looked at before the coin numbered `target` is found
/// carries a number.
pub open spec fn names_readable_until(names: Seq<Seq<char>>, target: u64) -> bool {
    forall|j: int|
        0 <= j < names.len() && (forall|k: int|
            0 <= k < j ==> spec_coin_name_index(#[trigger] names[k]) != Some(target))
            ==> spec_coin_name_index(#[trigger] names[j]) is Some
}

/// The position of the newest coin: the first one whose name carries the
/// number just below the market's coin counter.
pub fn newest_coin_position(names: &Vec<String>, market_index: u64) -> (r: Option<usize>)
    requires
        market_index >= 1,
        names_readable_until(name_views(names@), (market_index - 1) as u64),
    ensures
        r matches Some(i) ==> first_numbered(name_views(names@), (market_index - 1) as u64, 0)
            == Some(i as int),
        r is None ==> first_numbered(name_views(names@), (market_index - 1) as u64, 0) is None,
{
    let ghost v = name_views(names@);
    let newest_idx = market_index - 1;
    assert(newest_idx == (market_index - 1) as u64);
    let mut i: usize = 0;
    while i < names.len()
        invariant
            v == name_views(names@),
            0 <= i <= names@.len(),
            market_index >= 1,
            newest_idx == (market_index - 1) as u64,
            first_numbered(v, newest_idx, 0) == first_numbered(v, newest_idx, i as int),
            forall|k: int| 0 <= k < i ==> spec_coin_name_index(#[trigger] v[k]) != Some(newest_idx),
        decreases names@.len() - i,
    {
        assert(v[i as int] == names@[i as int]@);
        let n = coin_name_index(names[i].as_str());
        assert(n == spec_coin_name_index(v[i as int]));
        if n == Some(newest_idx) {
            assert(first_numbered(v, newest_idx, i as int) == Some(i as int));
            return Some(i);
        }
        i = i + 1;
    }
    None
}

/// Whether position `i` holds the longest running share cooldown: a
/// positive cooldown no shorter than any other, and longer than every later
/// one (among equals, the last is taken).
pub open spec fn is_longest_cooldown(c: Seq<i64>, i: int) -> bool {
    &&& 0 <= i < c.len()
    &&& c[i] > 0
    &&& forall|j: int| 0 <= j < c.len() && c[j] > 0 ==> #[trigger] c[j] <= c[i]
    &&& forall|j: int| i < j < c.len() ==> #[trigger] c[j] < c[i]
}

/// The position of the coin with the longest running share cooldown, if
/// any cooldown is running.
pub fn longest_share_cooldown(cooldowns: &Vec<i64>) -> (r: Option<usize>)
    ensures
        r matches Some(i) ==> is_longest_cooldown(cooldowns@, i as int),
        r is None ==> forall|j: int| 0 <= j < cooldowns@.len() ==> #[trigger] cooldowns@[j] <= 0,
{
    let mut best: Option<usize> = None;
    let mut i: usize = 0;
    while i < cooldowns.len()
        invariant
            0 <= i <= cooldowns@.len(),
            best matches Some(b) ==> b < i && is_longest_cooldown(cooldowns@.take(i as int), b as int),
            best is None ==> forall|j: int| 0 <= j < i ==> #[trigger] cooldowns@[j] <= 0,
        decreases cooldowns@.len() - i,
    {
        let c = cooldowns[i];
        let ghost t = cooldowns@.take(i + 1);
        if c > 0 {
            match best {
                Some(b) => {
                    if c >= cooldowns[b] {
                        best = Some(i);
                    }
                },
                None => {
                    best = Some(i);
                },
            }
        }
        proof {
            assert forall|j: int| 0 <= j < i implies #[trigger] t[j] == cooldowns@.take(i as int)[j] by {}
        }
        i = i + 1;
    }
    assert(cooldowns@.take(i as int) =~= cooldowns@);
    best
}

/// How many shares pass between announcements of accepted shares, by hash rate.
pub open spec fn spec_hash_divisor(hash_rate: u64) -> u64 {
    if hash_rate <= 1000 {
        1
    } else if hash_rate <= 2500 {
        2
    } else if hash_rate <= 5000 {
        5
    } else if hash_rate <= 7500 {
        10
    } else if hash_rate <= 10_000 {
        25
    } else if hash_rate <= 25_000 {
        50
    } else if hash_rate <= 50_000 {
        100
    } else if hash_rate <= 75_000 {
        250
    } else if hash_rate <= 100_000 {
        500
    } else {
        1000
    }
}

/// How many shares pass between announcements of accepted shares.
pub fn hash_divisor(hash_rate: u64) -> (d: u64)
    ensures
        d == spec_hash_divisor(hash_rate),
{
    if hash_rate <= 1000 {
        1
    } else if hash_rate <= 2500 {
        2
    } else if hash_rate <= 5000 {
        5
    } else if hash_rate <= 7500 {
        10
    } else if hash_rate <= 10_000 {
        25
    } else if hash_rate <= 25_000 {
        50
    } else if hash_rate <= 50_000 {
        100
    } else if hash_rate <= 75_000 {
        250
    } else if hash_rate <= 100_000 {
        500
    } else {
        1000
    }
}

/// Law: accepted shares are announced every share up to a hash rate of
/// 1000, every 2 shares to 2500, 5 to 5000, 10 to 7500, 25 to 10 000, 50 to
/// 25 000, 100 to 50 000, 250 to 75 000, 500 to 100 000, and every 1000
/// shares above that.
pub proof fn lemma_hash_divisor_table(h: u64)
    ensures
        h <= 1000 ==> spec_hash_divisor(h) == 1,
        1000 < h <= 2500 ==> spec_hash_divisor(h) == 2,
        2500 < h <= 5000 ==> spec_hash_divisor(h) == 5,
        5000 < h <= 7500 ==> spec_hash_divisor(h) == 10,
        7500 < h <= 10_000 ==> spec_hash_divisor(h) == 25,
        10_000 < h <= 25_000 ==> spec_hash_divisor(h) == 50,
        25_000 < h <= 50_000 ==> spec_hash_divisor(h) == 100,
        50_000 < h <= 75_000 ==> spec_hash_divisor(h) == 250,
        75_000 < h <= 100_000 ==> spec_hash_divisor(h) == 500,
        100_000 < h ==> spec_hash_divisor(h) == 1000,
{
}

/// Law: the opening-price bounds span 12 dollars (8 to 20) up to rig level
/// 3 and 20 dollars above, start at 20 at level 4 and rise 20 every three
/// levels to 180 at levels 28 to 30, and stay at 200 from level 31 on.
pub proof fn lemma_price_range_table(l: u64)
    ensures
        l <= 3 ==> spec_price_range(l) == (8int, 20int),
        4 <= l <= 30 ==> spec_price_range(l).0 == 20 * ((l - 1) / 3) && spec_price_range(l).1
            == spec_price_range(l).0 + 20,
        4 <= l <= 6 ==> spec_price_range(l).0 == 20,
        28 <= l <= 30 ==> spec_price_range(l).0 == 180,
        l >= 31 ==> spec_price_range(l) == (200int, 220int),
{
}

/// Law: block counts are drawn from 10 to 25 up to rig level 25, 15 to 50 to
/// 50, 25 to 75 to 75, 50 to 100 to 100, 100 to 200 to 125; then every 25
/// levels the lower bound is 50 more (150 at levels 126 to 150, 1850 at 976
/// to 1000) with the upper at twice it; 1900 to 5000 to level 1250, 4000 to
/// 10 000 to 1500, 5000 to 15 000 to 1750, 6000 to 20 000 to 2000, then every
/// 500 levels 1000 and 5000 more (7000 to 25 000 at 2001 to 2500, 12 000 to
/// 50 000 at 4501 to 5000), and 13 000 to 55 000 beyond.
pub proof fn lemma_max_blocks_range_table(l: u64)
    ensures
        l <= 25 ==> spec_max_blocks_range(l) == (10int, 25int),
        26 <= l <= 50 ==> spec_max_blocks_range(l) == (15int, 50int),
        51 <= l <= 75 ==> spec_max_blocks_range(l) == (25int, 75int),
        76 <= l <= 100 ==> spec_max_blocks_range(l) == (50int, 100int),
        101 <= l <= 125 ==> spec_max_blocks_range(l) == (100int, 200int),
        126 <= l <= 150 ==> spec_max_blocks_range(l) == (150int, 300int),
        976 <= l <= 1000 ==> spec_max_blocks_range(l) == (1850int, 3700int),
        126 <= l <= 1000 ==> spec_max_blocks_range(l).1 == 2 * spec_max_blocks_range(l).0,
        126 <= l <= 975 ==> spec_max_blocks_range((l + 25) as u64).0 == spec_max_blocks_range(l).0 + 50,
        1001 <= l <= 1250 ==> spec_max_blocks_range(l) == (1900int, 5000int),
        1251 <= l <= 1500 ==> spec_max_blocks_range(l) == (4000int, 10000int),
        1501 <= l <= 1750 ==> spec_max_blocks_range(l) == (5000int, 15000int),
        1751 <= l <= 2000 ==> spec_max_blocks_range(l) == (6000int, 20000int),
        2001 <= l <= 2500 ==> spec_max_blocks_range(l) == (7000int, 25000int),
        4501 <= l <= 5000 ==> spec_max_blocks_range(l) == (12000int, 50000int),
        2001 <= l <= 4500 ==> spec_max_blocks_range((l + 500) as u64) == (
            spec_max_blocks_range(l).0 + 1000,
            spec_max_blocks_range(l).1 + 5000,
        ),
        l > 5000 ==> spec_max_blocks_range(l) == (13000int, 55000int),
{
    assert(126 <= l <= 975 ==> (l + 25 - 1) / 25 == (l - 1) / 25 + 1) by (nonlinear_arith);
    assert(2001 <= l <= 4500 ==> (l + 500 - 1) / 500 == (l - 1) / 500 + 1) by (nonlinear_arith);
    assert(126 <= l <= 150 ==> (l - 1) / 25 == 5) by (nonlinear_arith);
    assert(976 <= l <= 1000 ==> (l - 1) / 25 == 39) by (nonlinear_arith);
    assert(2001 <= l <= 2500 ==> (l - 1) / 500 == 4) by (nonlinear_arith);
    assert(4501 <= l <= 5000 ==> (l - 1) / 500 == 9) by (nonlinear_arith);
}

/// Law: faster rigs never hear about their shares more often.
pub proof fn lemma_hash_divisor_monotone(a: u64, b: u64)
    requires
        a <= b,
    ensures
        1 <= spec_hash_divisor(a) <= spec_hash_divisor(b) <= 1000,
{
}

/// A coin's age in days: to its death when it has died, else to `today`.
pub open spec fn spec_coin_age(berth_date: u64, death_date: Option<u64>, today: u64) -> int {
    match death_date {
        Some(d) => d - berth_date,
        None => today - berth_date,
    }
}

/// A coin's age in days.
pub fn coin_age(berth_date: u64, death_date: Option<u64>, today: u64) -> (a: u64)
    requires
        spec_coin_age(berth_date, death_date, today) >= 0,
    ensures
        a == spec_coin_age(berth_date, death_date, today),
{
    match death_date {
        Some(d) => d - berth_date,
        None => today - berth_date,
    }
}

/// The chart's label row: one `|` for every point of the longest series.
pub fn chart_labels(series_lengths: &Vec<usize>) -> (labels: Vec<String>)
    ensures
        forall|i: int| 0 <= i < series_lengths@.len() ==> #[trigger] series_lengths@[i] <= labels@.len(),
        series_lengths@.len() > 0 ==> exists|i: int|
            0 <= i < series_lengths@.len() && #[trigger] series_lengths@[i] == labels@.len(),
        series_lengths@.len() == 0 ==> labels@.len() == 0,
        forall|i: int| 0 <= i < labels@.len() ==> (#[trigger] labels@[i])@ == "|"@,
{
    let mut max_len: usize = 0;
    let mut i: usize = 0;
    while i < series_lengths.len()
        invariant
            0 <= i <= series_lengths@.len(),
            forall|k: int| 0 <= k < i ==> #[trigger] series_lengths@[k] <= max_len,
            i > 0 ==> exists|k: int| 0 <= k < i && #[trigger] series_lengths@[k] == max_len,
            i == 0 ==> max_len == 0,
        decreases series_lengths@.len() - i,
    {
        if series_lengths[i] > max_len {
            max_len = series_lengths[i];
        }
        assert(series_lengths@[i as int] <= max_len);
        i = i + 1;
    }
    let mut labels: Vec<String> = Vec::new();
    let mut j: usize = 0;
    while j < max_len
        invariant
            0 <= j <= max_len,
            labels@.len() == j,
            forall|k: int| 0 <= k < j ==> (#[trigger] labels@[k])@ == "|"@,
        decreases max_len - j,
    {
        labels.push(String::from_str("|"));
        j = j + 1;
    }
    labels
}

/// Whether coin position `a` comes before position `b` when coins are
/// ordered by their market index, ties kept in their original order.
pub open spec fn index_before(idx: Seq<usize>, a: int, b: int) -> bool {
    idx[a] < idx[b] || (idx[a] == idx[b] && a < b)
}

/// Whether `order` lists exactly the active coins' positions, each once,
/// sorted by market index with ties in their original order.
pub open spec fn is_index_order(idx: Seq<usize>, active: Seq<bool>, order: Seq<usize>) -> bool {
    &&& forall|k: int| 0 <= k < order.len() ==> (#[trigger] order[k]) < idx.len() && active[order[k] as int]
    &&& forall|p: int| 0 <= p < idx.len() && active[p] ==> order.contains(p as usize)
    &&& forall|a: int, b: int|
        0 <= a < b < order.len() ==> index_before(idx, #[trigger] order[a] as int, #[trigger] order[b] as int)
}

/// The positions of the active coins, sorted by market index; coins with
/// equal indices keep their order.
pub fn index_sorted_order(indices: &Vec<usize>, active: &Vec<bool>) -> (order: Vec<usize>)
    requires
        indices@.len() == active@.len(),
    ensures
        is_index_order(indices@, active@, order@),
{
    let ghost idx = indices@;
    let mut order: Vec<usize> = Vec::new();
    let mut p: usize = 0;
    while p < indices.len()
        invariant
            idx == indices@,
            indices@.len() == active@.len(),
            0 <= p <= idx.len(),
            forall|k: int| 0 <= k < order@.len() ==> (#[trigger] order@[k]) < p && active@[order@[k] as int],
            forall|q: int| 0 <= q < p && active@[q] ==> order@.contains(q as usize),
            forall|a: int, b: int|
                0 <= a < b < order@.len() ==> index_before(idx, #[trigger] order@[a] as int, #[trigger] order@[b] as int),
        decreases idx.len() - p,
    {
        if active[p] {
            let key = indices[p];
            let mut j: usize = 0;
            while j < order.len() && indices[order[j]] <= key
                invariant
                    idx == indices@,
                    0 <= j <= order@.len(),
                    key == idx[p as int],
                    p < idx.len(),
                    forall|k: int| 0 <= k < order@.len() ==> (#[trigger] order@[k]) < p,
                    forall|k: int| 0 <= k < j ==> idx[(#[trigger] order@[k]) as int] <= key,
                decreases order@.len() - j,
            {
                j = j + 1;
            }
            let ghost before = order@;
            order.insert(j, p);
            proof {
                assert forall|a: int, b: int|
                    0 <= a < b < order@.len() implies index_before(idx, #[trigger] order@[a] as int, #[trigger] order@[b] as int) by {
                    if b < j {
                        assert(order@[a] == before[a] && order@[b] == before[b]);
                    } else if b == j {
                        assert(order@[a] == before[a]);
                    } else if a < j {
                        assert(order@[a] == before[a] && order@[b] == before[b - 1]);
                        if j < before.len() {
                            assert(idx[before[j as int] as int] > key);
                            assert(index_before(idx, before[j as int] as int, before[b - 1] as int) || b - 1 == j);
                        }
                    } else if a == j {
                        assert(order@[b] == before[b - 1]);
                        assert(idx[before[j as int] as int] > key);
                        if b - 1 > j {
                            assert(index_before(idx, before[j as int] as int, before[b - 1] as int));
                        }
                    } else {
                        assert(order@[a] == before[a - 1] && order@[b] == before[b - 1]);
                    }
                }
                assert forall|q: int| 0 <= q < p + 1 && active@[q] implies order@.contains(q as usize) by {
                    if q < p {
                        let k = choose|k: int| 0 <= k < before.len() && before[k] == q as usize;
                        if k < j {
                            assert(order@[k] == q as usize);
                        } else {
                            assert(order@[k + 1] == q as usize);
                        }
                    } else {
                        assert(order@[j as int] == p);
                    }
                }
                assert forall|k: int| 0 <= k < order@.len() implies (#[trigger] order@[k]) < p + 1 && active@[order@[k] as int] by {
                    if k < j {
                        assert(order@[k] == before[k]);
                    } else if k > j {
                        assert(order@[k] == before[k - 1]);
                    }
                }
            }
        }
        p = p + 1;
    }
    order
}

/// The hardest share a new coin may ask for: a thousand hashes per rig
/// level, at most five thousand.
pub fn max_hashes_per_share(rig_lvl: u64) -> (m: u64)
    requires
        rig_lvl * 1000 <= u64::MAX,
    ensures
        m == if rig_lvl * 1000 < 5000 { rig_lvl * 1000 } else { 5000 },
{
    let m = rig_lvl * 1000;
    if m < 5000 { m } else { 5000 }
}

/// The bounds from which a new coin's block count is drawn, by rig level:
/// fixed rows up to level 125, then every 25 levels the lower bound grows by
/// 50 with the upper bound at twice the lower up to level 1000, then wider
/// rows, every 500 levels from 2000 to 5000, and one row beyond.
pub open spec fn spec_max_blocks_range(rig_lvl: u64) -> (int, int) {
    if rig_lvl <= 25 {
        (10, 25)
    } else if rig_lvl <= 50 {
        (15, 50)
    } else if rig_lvl <= 75 {
        (25, 75)
    } else if rig_lvl <= 100 {
        (50, 100)
    } else if rig_lvl <= 125 {
        (100, 200)
    } else if rig_lvl <= 1000 {
        let lo = 150 + 50 * ((rig_lvl - 1) / 25 - 5);
        (lo, 2 * lo)
    } else if rig_lvl <= 1250 {
        (1900, 5000)
    } else if rig_lvl <= 1500 {
        (4000, 10000)
    } else if rig_lvl <= 1750 {
        (5000, 15000)
    } else if rig_lvl <= 2000 {
        (6000, 20000)
    } else if rig_lvl <= 5000 {
        let k = (rig_lvl - 1) / 500 - 4;
        (7000 + 1000 * k, 25000 + 5000 * k)
    } else {
        (13000, 55000)
    }
}

/// The bounds from which a new coin's block count is drawn at `rig_lvl`.
pub fn max_blocks_range(rig_lvl: u64) -> (r: (u64, u64))
    ensures
        (r.0 as int, r.1 as int) == spec_max_blocks_range(rig_lvl),
{
    match rig_lvl {
        0..=25 => (10, 25),
        26..=50 => (15, 50),
        51..=75 => (25, 75),
        76..=100 => (50, 100),
        101..=125 => (100, 200),
        126..=150 => (150, 300),
        151..=175 => (200, 400),
        176..=200 => (250, 500),
        201..=225 => (300, 600),
        226..=250 => (350, 700),
        251..=275 => (400, 800),
        276..=300 => (450, 900),
        301..=325 => (500, 1000),
        326..=350 => (550, 1100),
        351..=375 => (600, 1200),
        376..=400 => (650, 1300),
        401..=425 => (700, 1400),
        426..=450 => (750, 1500),
        451..=475 => (800, 1600),
        476..=500 => (850, 1700),
        501..=525 => (900, 1800),
        526..=550 => (950, 1900),
        551..=575 => (1000, 2000),
        576..=600 => (1050, 2100),
        601..=625 => (1100, 2200),
        626..=650 => (1150, 2300),
        651..=675 => (1200, 2400),
        676..=700 => (1250, 2500),
        701..=725 => (1300, 2600),
        726..=750 => (1350, 2700),
        751..=775 => (1400, 2800),
        776..=800 => (1450, 2900),
        801..=825 => (1500, 3000),
        826..=850 => (1550, 3100),
        851..=875 => (1600, 3200),
        876..=900 => (1650, 3300),
        901..=925 => (1700, 3400),
        926..=950 => (1750, 3500),
        951..=975 => (1800, 3600),
        976..=1000 => (1850, 3700),
        1001..=1250 => (1900, 5000),
        1251..=1500 => (4000, 10000),
        1501..=1750 => (5000, 15000),
        1751..=2000 => (6000, 20000),
        2001..=2500 => (7000, 25000),
        2501..=3000 => (8000, 30000),
        3001..=3500 => (9000, 35000),
        3501..=4000 => (10000, 40000),
        4001..=4500 => (11000, 45000),
        4501..=5000 => (12000, 50000),
        _ => (13000, 55000),
    }
}

/// Law: the block-count bounds never shrink as the rig levels up, and the
/// lower bound always lies below the upper.
pub proof fn lemma_max_blocks_range_monotone(a: u64, b: u64)
    requires
        a <= b,
    ensures
        spec_max_blocks_range(a).0 <= spec_max_blocks_range(b).0,
        spec_max_blocks_range(a).1 <= spec_max_blocks_range(b).1,
        spec_max_blocks_range(a).0 < spec_max_blocks_range(a).1,
{
    if 125 < a && a <= 1000 && 125 < b && b <= 1000 {
        assert((a - 1) / 25 <= (b - 1) / 25) by (nonlinear_arith)
            requires a <= b, 1 <= a;
    }
    if 2000 < a && a <= 5000 && 2000 < b && b <= 5000 {
        assert((a - 1) / 500 <= (b - 1) / 500) by (nonlinear_arith)
            requires a <= b, 1 <= a;
    }
    if 125 < a && a <= 1000 {
        assert(5 <= (a - 1) / 25 <= 39) by (nonlinear_arith)
            requires 125 < a <= 1000;
    }
    if 125 < b && b <= 1000 {
        assert(5 <= (b - 1) / 25 <= 39) by (nonlinear_arith)
            requires 125 < b <= 1000;
    }
    if 2000 < a && a <= 5000 {
        assert(4 <= (a - 1) / 500 <= 9) by (nonlinear_arith)
            requires 2000 < a <= 5000;
    }
    if 2000 < b && b <= 5000 {
        assert(4 <= (b - 1) / 500 <= 9) by (nonlinear_arith)
            requires 2000 < b <= 5000;
    }
}

/// The bounds from which a new coin's opening price is drawn, by rig level:
/// 8 to 20 up to level 3, then a band of 20 every three levels, from 20 to 40
/// at levels 4 to 6 up to 180 to 200 at levels 28 to 30, and 200 to 220 beyond.
pub open spec fn spec_price_range(rig_lvl: u64) -> (int, int) {
    if rig_lvl <= 3 {
        (8, 20)
    } else if rig_lvl <= 30 {
        let lo = 20 * ((rig_lvl - 1) / 3);
        (lo, lo + 20)
    } else {
        (200, 220)
    }
}

/// The bounds from which a new coin's opening price is drawn at `rig_lvl`.
pub fn price_range(rig_lvl: u64) -> (r: (u64, u64))
    ensures
        (r.0 as int, r.1 as int) == spec_price_range(rig_lvl),
{
    if rig_lvl <= 3 {
        (8, 20)
    } else if rig_lvl <= 30 {
        let lo: u64 = 20 * ((rig_lvl - 1) / 3);
        (lo, lo + 20)
    } else {
        (200, 220)
    }
}

/// The byte length of a string, as `len` reports it.
pub open spec fn byte_len(s: String) -> int {
    (vstd::utf8::encode_utf8(s@).len() as usize) as int
}

/// The longest byte length among `labels`, or 0.
pub open spec fn longest_bytes(labels: Seq<String>) -> int
    decreases labels.len(),
{
    if labels.len() == 0 {
        0
    } else {
        let rest = longest_bytes(labels.drop_last());
        let l = byte_len(labels.last());
        if l > rest { l } else { rest }
    }
}

/// Room below the chart for its series labels: twenty pixels per byte of
/// the longest label, the length taken into 32 bits.
pub fn label_padding(labels: &Vec<String>) -> (p: i32)
    requires
        i32::MIN <= ((longest_bytes(labels@) as usize) as i32) * 20 <= i32::MAX,
    ensures
        p == ((longest_bytes(labels@) as usize) as i32) * 20,
{
    let mut p_left: usize = 0;
    let mut i: usize = 0;
    while i < labels.len()
        invariant
            0 <= i <= labels@.len(),
            p_left == longest_bytes(labels@.take(i as int)),
        decreases labels@.len() - i,
    {
        assert(labels@.take(i + 1).drop_last() =~= labels@.take(i as int));
        let l = labels[i].as_str().len();
        if l > p_left {
            p_left = l;
        }
        i = i + 1;
    }
    assert(labels@.take(i as int) =~= labels@);
    (p_left as i32) * 20
}

} // verus!
