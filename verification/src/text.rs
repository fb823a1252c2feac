//! Text the game shows: decimal digits, numbers grouped in thousands, and
//! the console, which keeps only its most recent lines.
use vstd::prelude::*;

verus! {

/// The character of a decimal digit.
pub open spec fn digit_char(d: nat) -> char {
    (48 + d) as char
}

/// The decimal digits of `n`, most significant first, without leading zeros.
pub open spec fn decimal(n: nat) -> Seq<char>
    decreases n,
{
    if n < 10 {
        seq![digit_char(n)]
    } else {
        decimal(n / 10).push(digit_char(n % 10))
    }
}

/// Appends one character to a string.
/// Trusted: `String::push` appends the character at the end of the string.
#[verifier::external_body]
pub(crate) fn push_char(s: &mut String, c: char)
    ensures
        final(s)@ == old(s)@.push(c),
{
    s.push(c)
}

/// The character of the digit `d`.
pub fn digit_to_char(d: u64) -> (c: char)
    requires
        d < 10,
    ensures
        c == digit_char(d as nat),
{
    let b: u8 = 48u8 + (d as u8);
    b as char
}

/// Appends the decimal rendering of `n` to `s`.
pub fn push_decimal(s: &mut String, n: u64)
    ensures
        final(s)@ == old(s)@ + decimal(n as nat),
    decreases n,
{
    if n >= 10 {
        push_decimal(s, n / 10);
    }
    let c = digit_to_char(n % 10);
    push_char(s, c);
    proof {
        if n >= 10 {
            assert(decimal(n as nat) == decimal((n / 10) as nat).push(digit_char((n % 10) as nat)));
        } else {
            assert(decimal(n as nat) == seq![digit_char(n as nat)]);
        }
    }
}

/// A digit's character is the digit's offset from `'0'`.
pub proof fn lemma_digit_char(d: nat)
    requires
        d < 10,
    ensures
        digit_char(d) as int - '0' as int == d,
        '0' <= digit_char(d) <= '9',
{
}

/// The position of the first `c` in `s` at position `i` or later.
pub open spec fn find_char(s: Seq<char>, c: char, i: int) -> Option<int>
    decreases s.len() - i,
{
    if i < 0 || i >= s.len() {
        None
    } else if s[i] == c {
        Some(i)
    } else {
        find_char(s, c, i + 1)
    }
}

/// `find_char` gives the first position of `c` from `i` on, or `None` when
/// there is none.
pub proof fn lemma_find_char(s: Seq<char>, c: char, i: int)
    requires
        0 <= i,
    ensures
        find_char(s, c, i) matches Some(j) ==> i <= j < s.len() && s[j] == c && forall|k: int|
            i <= k < j ==> s[k] != c,
        find_char(s, c, i) is None ==> forall|k: int| i <= k < s.len() ==> s[k] != c,
    decreases s.len() - i,
{
    if i < s.len() && s[i] != c {
        lemma_find_char(s, c, i + 1);
    }
}

/// Finds the first `c` in `s` at position `from` or later.
pub fn find_char_exec(s: &str, len: usize, c: char, from: usize) -> (r: Option<usize>)
    requires
        len == s@.len(),
        from <= len,
    ensures
        r matches Some(j) ==> find_char(s@, c, from as int) == Some(j as int) && from <= j < len,
        r is None ==> find_char(s@, c, from as int) is None,
{
    proof {
        lemma_find_char(s@, c, from as int);
    }
    let mut i = from;
    while i < len
        invariant
            len == s@.len(),
            from <= i <= len,
            find_char(s@, c, from as int) == find_char(s@, c, i as int),
        decreases len - i,
    {
        if s.get_char(i) == c {
            return Some(i);
        }
        i = i + 1;
    }
    None
}

/// `s` with a comma between every group of three characters, counted from
/// the right.
pub open spec fn group_thousands(s: Seq<char>) -> Seq<char>
    decreases s.len(),
{
    if s.len() <= 3 {
        s
    } else {
        group_thousands(s.take(s.len() - 3)) + seq![','] + s.skip(s.len() - 3)
    }
}

/// A formatted number as the game displays it: the part before the first
/// `.` grouped in thousands, followed by `.` and the part up to the next
/// `.`, unless that part is `00` or there is no `.`.
pub open spec fn spec_group_formatted(v: Seq<char>) -> Seq<char> {
    match find_char(v, '.', 0) {
        None => group_thousands(v),
        Some(i) => {
            let rest = v.skip(i + 1);
            let frac = match find_char(rest, '.', 0) {
                Some(j) => rest.take(j),
                None => rest,
            };
            if frac == "00"@ {
                group_thousands(v.take(i))
            } else {
                group_thousands(v.take(i)) + seq!['.'] + frac
            }
        },
    }
}

/// Appends the characters of `s` from `start` to `end`.
pub(crate) fn push_range(out: &mut String, s: &str, start: usize, end: usize)
    requires
        start <= end <= s@.len(),
    ensures
        final(out)@ == old(out)@ + s@.subrange(start as int, end as int),
{
    let mut i = start;
    while i < end
        invariant
            start <= i <= end <= s@.len(),
            out@ == old(out)@ + s@.subrange(start as int, i as int),
        decreases end - i,
    {
        let c = s.get_char(i);
        push_char(out, c);
        assert(s@.subrange(start as int, i + 1) =~= s@.subrange(start as int, i as int).push(c));
        i = i + 1;
    }
}

/// Appends the first `end` characters of `s`, grouped in thousands.
fn push_grouped(out: &mut String, s: &str, end: usize)
    requires
        end <= s@.len(),
    ensures
        final(out)@ == old(out)@ + group_thousands(s@.take(end as int)),
    decreases end,
{
    if end <= 3 {
        push_range(out, s, 0, end);
        assert(s@.subrange(0, end as int) =~= s@.take(end as int));
    } else {
        push_grouped(out, s, end - 3);
        push_char(out, ',');
        push_range(out, s, end - 3, end);
        let ghost t = s@.take(end as int);
        assert(t.take(t.len() - 3) =~= s@.take(end - 3));
        assert(t.skip(t.len() - 3) =~= s@.subrange(end - 3, end as int));
        assert(final(out)@ =~= old(out)@ + group_thousands(t));
    }
}

/// Groups a formatted number for display, as `spec_group_formatted` says.
pub fn group_formatted(v: &str) -> (r: String)
    ensures
        r@ == spec_group_formatted(v@),
{
    let len = v.unicode_len();
    let mut out = String::new();
    match find_char_exec(v, len, '.', 0) {
        None => {
            push_grouped(&mut out, v, len);
            assert(v@.take(len as int) =~= v@);
        },
        Some(i) => {
            let end = match find_char_exec(v, len, '.', i + 1) {
                Some(j) => j,
                None => len,
            };
            let ghost rest = v@.skip(i + 1);
            proof {
                lemma_find_char(v@, '.', i + 1);
                lemma_find_char_skip(v@, '.', i + 1, 0);
                match find_char(rest, '.', 0) {
                    Some(j) => {
                        assert(rest.take(j) =~= v@.subrange(i + 1, end as int));
                    },
                    None => {
                        assert(rest =~= v@.subrange(i + 1, end as int));
                    },
                }
            }
            let is_00 = end - i == 3 && v.get_char(i + 1) == '0' && v.get_char(i + 2) == '0';
            proof {
                reveal_strlit("00");
                let frac = v@.subrange(i + 1, end as int);
                if is_00 {
                    assert(frac =~= "00"@);
                } else {
                    if frac == "00"@ {
                        assert(frac.len() == 2);
                        assert(frac[0] == '0' && frac[1] == '0');
                    }
                }
            }
            push_grouped(&mut out, v, i);
            if !is_00 {
                push_char(&mut out, '.');
                push_range(&mut out, v, i + 1, end);
            }
        },
    }
    out
}

/// Searching the text from position `k` on finds what searching the whole
/// text from `k` finds, shifted by `k`.
pub proof fn lemma_find_char_skip(s: Seq<char>, c: char, k: int, m: int)
    requires
        0 <= k <= s.len(),
        0 <= m,
    ensures
        find_char(s.skip(k), c, m) == match find_char(s, c, k + m) {
            Some(j) => Some(j - k),
            None => None,
        },
    decreases s.len() - k - m,
{
    if k + m < s.len() {
        assert(s.skip(k)[m] == s[k + m]);
        lemma_find_char_skip(s, c, k, m + 1);
    }
}

/// Law: the fraction of a formatted number (the text after its first `.` up
/// to the next `.`) is shown after a `.` at the end, unless it is exactly
/// `00`, when the number shows no `.` at all; in particular any fraction of
/// more than two characters is kept, and before it stands the whole part
/// grouped in thousands.
pub proof fn lemma_group_formatted_fraction(v: Seq<char>, i: int, f: Seq<char>)
    requires
        find_char(v, '.', 0) == Some(i),
        f == (match find_char(v.skip(i + 1), '.', 0) {
            Some(j) => v.skip(i + 1).take(j),
            None => v.skip(i + 1),
        }),
    ensures
        f != "00"@ ==> {
            let r = spec_group_formatted(v);
            &&& r.len() >= f.len() + 1
            &&& r.subrange(r.len() - f.len() - 1, r.len() as int) == seq!['.'] + f
            &&& r.take(r.len() - f.len() - 1) == group_thousands(v.take(i))
        },
        f.len() > 2 ==> f != "00"@,
        f == "00"@ ==> spec_group_formatted(v) == group_thousands(v.take(i)),
{
    reveal_strlit("00");
    let g = group_thousands(v.take(i));
    if f != "00"@ {
        let r = g + seq!['.'] + f;
        assert(spec_group_formatted(v) == r);
        assert(r.subrange(r.len() - f.len() - 1, r.len() as int) =~= seq!['.'] + f);
        assert(r.take(r.len() - f.len() - 1) =~= g);
    }
}

/// Law: a formatted number with no `.` is grouped whole.
pub proof fn lemma_group_formatted_whole(v: Seq<char>)
    requires
        find_char(v, '.', 0) is None,
    ensures
        spec_group_formatted(v) == group_thousands(v),
{
}

/// Law: the console shows the kept history and the message on a line of
/// its own below it, or the message alone when nothing of the history is
/// kept; the message always ends the text.
pub proof fn lemma_console_message_last(h: Seq<char>, msg: Seq<char>)
    ensures
        spec_console_text(h, msg).len() >= msg.len(),
        spec_console_text(h, msg).skip(spec_console_text(h, msg).len() - msg.len()) == msg,
        spec_trimmed_history(h).len() > 0 ==> spec_console_text(h, msg).take(
            spec_trimmed_history(h).len() + 1int,
        ) == spec_trimmed_history(h).push('\n'),
        spec_trimmed_history(h).len() == 0 ==> spec_console_text(h, msg) == msg,
{
    let t = spec_trimmed_history(h);
    let r = spec_console_text(h, msg);
    if t.len() > 0 {
        assert(r.skip(r.len() - msg.len()) =~= msg);
        assert(r.take(t.len() + 1int) =~= t.push('\n'));
    } else {
        assert(r.skip(0) =~= msg);
    }
}

/// Law: grouping in thousands: up to three characters stay as they are;
/// longer text ends in a comma followed by its last three characters, and
/// taking the commas out gives the text back.
pub proof fn lemma_group_thousands_shape(s: Seq<char>)
    ensures
        s.len() <= 3 ==> group_thousands(s) == s,
        s.len() > 3 ==> {
            let g = group_thousands(s);
            &&& g.len() >= 4
            &&& g[g.len() - 4] == ','
            &&& g.skip(g.len() - 3) == s.skip(s.len() - 3)
        },
        !s.contains(',') ==> group_thousands(s).filter(not_comma()) == s,
    decreases s.len(),
{
    if s.len() > 3 {
        let a = s.take(s.len() - 3);
        let b = s.skip(s.len() - 3);
        lemma_group_thousands_shape(a);
        let ga = group_thousands(a);
        let g = ga + seq![','] + b;
        assert(g.skip(g.len() - 3) =~= b);
        assert(g[g.len() - 4] == ',');
        if !s.contains(',') {
            assert(!a.contains(',')) by {
                if a.contains(',') {
                    let k = choose|k: int| 0 <= k < a.len() && a[k] == ',';
                    assert(s[k] == ',');
                }
            }
            assert(!b.contains(',')) by {
                if b.contains(',') {
                    let k = choose|k: int| 0 <= k < b.len() && b[k] == ',';
                    assert(s[s.len() - 3 + k] == ',');
                }
            }
            Seq::filter_distributes_over_add(ga + seq![','], b, not_comma());
            Seq::filter_distributes_over_add(ga, seq![','], not_comma());
            Seq::<char>::empty().lemma_filter_push(',', not_comma());
            lemma_filter_no_comma(b);
            assert(Seq::<char>::empty().push(',') =~= seq![',']);
            assert(Seq::<char>::empty().filter(not_comma()) =~= Seq::<char>::empty()) by {
                reveal(Seq::filter);
            }
            assert(a + b =~= s);
        }
    } else if !s.contains(',') {
        lemma_filter_no_comma(s);
    }
}

/// Whether a character is not a comma.
pub open spec fn not_comma() -> spec_fn(char) -> bool {
    |c: char| c != ','
}

proof fn lemma_filter_no_comma(s: Seq<char>)
    requires
        !s.contains(','),
    ensures
        s.filter(not_comma()) == s,
    decreases s.len(),
{
    reveal(Seq::filter);
    if s.len() > 0 {
        let d = s.drop_last();
        assert(!d.contains(',')) by {
            if d.contains(',') {
                let k = choose|k: int| 0 <= k < d.len() && d[k] == ',';
                assert(s[k] == ',');
            }
        }
        lemma_filter_no_comma(d);
        assert(s.last() != ',') by {
            assert(s[s.len() - 1] == s.last());
        }
        assert(d.push(s.last()) =~= s);
    } else {
        assert(s.filter(not_comma()) =~= s);
    }
}

/// Law: grouping adds one comma for every three characters beyond the
/// first one to three.
pub proof fn lemma_group_thousands_len(s: Seq<char>)
    ensures
        group_thousands(s).len() == s.len() + if s.len() == 0 { 0 } else { (s.len() - 1) / 3 },
    decreases s.len(),
{
    if s.len() > 3 {
        lemma_group_thousands_len(s.take(s.len() - 3));
    }
}

/// How many lines the console keeps.
pub const MAX_CONSOLE_LINES: usize = 1024;

/// The positions of the line breaks in `s`, in order.
pub open spec fn newlines(s: Seq<char>) -> Seq<int>
    decreases s.len(),
{
    if s.len() == 0 {
        Seq::empty()
    } else if s.last() == '\n' {
        newlines(s.drop_last()).push(s.len() - 1)
    } else {
        newlines(s.drop_last())
    }
}

/// The console history cut to its last `MAX_CONSOLE_LINES` lines.
pub open spec fn spec_trimmed_history(h: Seq<char>) -> Seq<char> {
    let n = newlines(h);
    if n.len() + 1 > MAX_CONSOLE_LINES {
        h.skip(n[n.len() - MAX_CONSOLE_LINES] + 1)
    } else {
        h
    }
}

/// The console after printing `msg`: the history cut to its last
/// `MAX_CONSOLE_LINES` lines, then the message on a line of its own (or
/// the message alone when nothing is left of the history).
pub open spec fn spec_console_text(h: Seq<char>, msg: Seq<char>) -> Seq<char> {
    let t = spec_trimmed_history(h);
    if t.len() == 0 {
        msg
    } else {
        t + seq!['\n'] + msg
    }
}

proof fn lemma_newlines_bounds(s: Seq<char>)
    ensures
        newlines(s).len() <= s.len(),
        forall|k: int| 0 <= k < newlines(s).len() ==> 0 <= #[trigger] newlines(s)[k] < s.len() && s[newlines(s)[k]] == '\n',
    decreases s.len(),
{
    if s.len() > 0 {
        let d = s.drop_last();
        lemma_newlines_bounds(d);
        assert forall|k: int| 0 <= k < newlines(s).len() implies 0 <= #[trigger] newlines(s)[k] < s.len() && s[newlines(s)[k]] == '\n' by {
            if k < newlines(d).len() {
                assert(newlines(s)[k] == newlines(d)[k]);
                assert(s[newlines(d)[k]] == d[newlines(d)[k]]);
            }
        }
    }
}

proof fn lemma_newlines_step(s: Seq<char>, i: int)
    requires
        0 <= i < s.len(),
    ensures
        newlines(s.take(i + 1)) == if s[i] == '\n' {
            newlines(s.take(i)).push(i)
        } else {
            newlines(s.take(i))
        },
{
    let t = s.take(i + 1);
    assert(t.drop_last() =~= s.take(i));
}

proof fn lemma_newlines_prefix(s: Seq<char>, i: int)
    requires
        0 <= i <= s.len(),
    ensures
        newlines(s.take(i)).len() <= newlines(s).len(),
        forall|k: int| 0 <= k < newlines(s.take(i)).len() ==> #[trigger] newlines(s.take(i))[k] == newlines(s)[k],
        forall|k: int| newlines(s.take(i)).len() <= k < newlines(s).len() ==> #[trigger] newlines(s)[k] >= i,
    decreases s.len() - i,
{
    if i < s.len() {
        lemma_newlines_prefix(s, i + 1);
        lemma_newlines_step(s, i);
        let a = newlines(s.take(i));
        let b = newlines(s.take(i + 1));
        assert forall|k: int| 0 <= k < a.len() implies #[trigger] a[k] == newlines(s)[k] by {
            assert(a[k] == b[k]);
        }
        assert forall|k: int| a.len() <= k < newlines(s).len() implies #[trigger] newlines(s)[k] >= i by {
            if k < b.len() {
                assert(b[k] == i);
                assert(b[k] == newlines(s)[k]);
            }
        }
    } else {
        assert(s.take(i) =~= s);
    }
}

/// The position of the line break that ends line `target` of `history`
/// (counting from 0), which exists.
fn line_break_at(history: &str, len: usize, target: usize) -> (pos: usize)
    requires
        len == history@.len(),
        target < newlines(history@).len(),
    ensures
        pos == newlines(history@)[target as int],
        pos < len,
{
    let ghost h = history@;
    proof {
        lemma_newlines_bounds(h);
        lemma_newlines_prefix(h, 0);
        assert(h.take(0) =~= Seq::<char>::empty());
    }
    let mut seen: usize = 0;
    let mut j: usize = 0;
    while j < len
        invariant
            len == h.len(),
            h == history@,
            target < newlines(h).len(),
            0 <= j <= len,
            seen == newlines(h.take(j as int)).len(),
            seen <= target,
        decreases len - j,
    {
        proof {
            lemma_newlines_prefix(h, j as int);
            lemma_newlines_prefix(h, j + 1);
            lemma_newlines_step(h, j as int);
        }
        if history.get_char(j) == '\n' {
            if seen == target {
                assert(newlines(h.take(j + 1))[seen as int] == j);
                return j;
            }
            seen = seen + 1;
        }
        j = j + 1;
    }
    proof {
        lemma_newlines_prefix(h, len as int);
        assert(h.take(len as int) =~= h);
    }
    0
}

proof fn lemma_newlines_increasing(s: Seq<char>)
    ensures
        forall|i: int, j: int|
            0 <= i < j < newlines(s).len() ==> #[trigger] newlines(s)[i] < #[trigger] newlines(s)[j],
    decreases s.len(),
{
    if s.len() > 0 {
        let d = s.drop_last();
        lemma_newlines_increasing(d);
        lemma_newlines_bounds(d);
        let n = newlines(s);
        let m = newlines(d);
        assert forall|i: int, j: int| 0 <= i < j < n.len() implies #[trigger] n[i] < #[trigger] n[j] by {
            assert(n[i] == m[i]);
            if j < m.len() {
                assert(n[j] == m[j]);
            }
        }
    }
}

/// Line breaks from position `j` on are those of the whole text less those
/// before `j`.
proof fn lemma_newlines_skip(s: Seq<char>, j: int)
    requires
        0 <= j <= s.len(),
    ensures
        newlines(s.skip(j)).len() + newlines(s.take(j)).len() == newlines(s).len(),
    decreases s.len(),
{
    if s.len() == j {
        assert(s.take(j) =~= s);
        assert(s.skip(j) =~= Seq::<char>::empty());
    } else {
        let d = s.drop_last();
        lemma_newlines_skip(d, j);
        assert(d.take(j) =~= s.take(j));
        assert(s.skip(j).drop_last() =~= d.skip(j));
        assert(s.skip(j).last() == s.last());
    }
}

/// Law: the console keeps the end of its history, with fewer than
/// `MAX_CONSOLE_LINES` line breaks in it, so that with the new message it
/// shows at most `MAX_CONSOLE_LINES` lines before the message's own.
pub proof fn lemma_console_keeps_last_lines(h: Seq<char>)
    ensures
        newlines(spec_trimmed_history(h)).len() < MAX_CONSOLE_LINES,
        newlines(h).len() < 1024 ==> spec_trimmed_history(h) == h,
        newlines(h).len() >= 1024 ==> newlines(spec_trimmed_history(h)).len() == 1023,
        spec_trimmed_history(h).len() <= h.len(),
        spec_trimmed_history(h) == h.skip(h.len() - spec_trimmed_history(h).len()),
        newlines(h).len() >= 1024 ==> h[h.len() - spec_trimmed_history(h).len() - 1] == '\n',
{
    let n = newlines(h);
    if n.len() + 1 > MAX_CONSOLE_LINES {
        let k = n.len() - MAX_CONSOLE_LINES;
        let p = n[k];
        lemma_newlines_bounds(h);
        lemma_newlines_increasing(h);
        lemma_newlines_prefix(h, p);
        lemma_newlines_prefix(h, p + 1);
        lemma_newlines_step(h, p);
        let a: int = newlines(h.take(p)).len() as int;
        assert(newlines(h.take(p + 1))[a] == p);
        assert(n[a] == p);
        if a < k {
            assert(n[a] < n[k]);
        } else if a > k {
            assert(n[k] < n[a]);
        }
        lemma_newlines_skip(h, p + 1);
        assert(spec_trimmed_history(h) == h.skip(p + 1));
        assert(h.skip(h.len() - h.skip(p + 1).len()) =~= h.skip(p + 1));
    } else {
        assert(h.skip(0) =~= h);
    }
}

/// The console after printing `msg`, as `spec_console_text` says.
pub fn console_text(history: &str, msg: &str) -> (r: String)
    ensures
        r@ == spec_console_text(history@, msg@),
{
    let len = history.unicode_len();
    let ghost h = history@;
    let mut count: usize = 0;
    let mut i: usize = 0;
    while i < len
        invariant
            len == h.len(),
            h == history@,
            0 <= i <= len,
            count == newlines(h.take(i as int)).len(),
            count <= i,
        decreases len - i,
    {
        proof {
            lemma_newlines_step(h, i as int);
        }
        if history.get_char(i) == '\n' {
            count = count + 1;
        }
        i = i + 1;
    }
    assert(h.take(len as int) =~= h);
    let start: usize = if count >= MAX_CONSOLE_LINES {
        line_break_at(history, len, count - MAX_CONSOLE_LINES) + 1
    } else {
        0
    };
    let mut out = String::new();
    push_range(&mut out, history, start, len);
    assert(out@ =~= spec_trimmed_history(h));
    if out.unicode_len() > 0 {
        push_char(&mut out, '\n');
        out.append(msg);
        out
    } else {
        String::from_str(msg)
    }
}

} // verus!
