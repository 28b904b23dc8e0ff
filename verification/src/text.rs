//! Text building blocks shared by the protocol and command layers:
//! decimal rendering of integers, joining, padding and small predicates.

use vstd::prelude::*;

verus! {

/// `String::push` appends one character.
pub assume_specification[ String::push ](s: &mut String, ch: char)
    ensures
        final(s)@ == old(s)@.push(ch),
;

/// The character of a decimal digit.
pub open spec fn digit_char(d: int) -> char {
    if d == 0 { '0' }
    else if d == 1 { '1' }
    else if d == 2 { '2' }
    else if d == 3 { '3' }
    else if d == 4 { '4' }
    else if d == 5 { '5' }
    else if d == 6 { '6' }
    else if d == 7 { '7' }
    else if d == 8 { '8' }
    else { '9' }
}

/// Decimal digits of a natural number, most significant first, without
/// leading zeros (`0` is written as a single `'0'`).
pub open spec fn nat_text(n: nat) -> Seq<char>
    decreases n,
{
    if n < 10 {
        seq![digit_char(n as int)]
    } else {
        nat_text(n / 10).push(digit_char((n % 10) as int))
    }
}

/// How Rust's `Display` writes an integer: a leading `-` for negatives.
pub open spec fn int_text(i: int) -> Seq<char> {
    if i < 0 {
        seq!['-'] + nat_text((-i) as nat)
    } else {
        nat_text(i as nat)
    }
}

fn digit(d: u128) -> (c: char)
    requires
        d < 10,
    ensures
        c == digit_char(d as int),
{
    if d == 0 { '0' }
    else if d == 1 { '1' }
    else if d == 2 { '2' }
    else if d == 3 { '3' }
    else if d == 4 { '4' }
    else if d == 5 { '5' }
    else if d == 6 { '6' }
    else if d == 7 { '7' }
    else if d == 8 { '8' }
    else { '9' }
}

/// Appends the decimal digits of `n` to `out`.
fn push_nat_text(out: &mut String, n: u128)
    ensures
        final(out)@ == old(out)@ + nat_text(n as nat),
    decreases n,
{
    if n < 10 {
        out.push(digit(n));
    } else {
        push_nat_text(out, n / 10);
        out.push(digit(n % 10));
        proof {
            assert(nat_text(n as nat) == nat_text((n / 10) as nat).push(digit_char((n % 10) as int)));
        }
    }
}

/// Renders a signed integer as Rust's `Display` does.
pub fn i64_text(n: i64) -> (s: String)
    ensures
        s@ == int_text(n as int),
{
    let mut s = String::new();
    if n < 0 {
        s.push('-');
        let m: i128 = -(n as i128);
        push_nat_text(&mut s, m as u128);
    } else {
        push_nat_text(&mut s, n as u128);
    }
    s
}

/// Renders an unsigned size as Rust's `Display` does.
pub fn usize_text(n: usize) -> (s: String)
    ensures
        s@ == nat_text(n as nat),
{
    let mut s = String::new();
    push_nat_text(&mut s, n as u128);
    s
}

/// Renders an unsigned 64-bit integer as Rust's `Display` does.
pub fn u64_text(n: u64) -> (s: String)
    ensures
        s@ == nat_text(n as nat),
{
    let mut s = String::new();
    push_nat_text(&mut s, n as u128);
    s
}

} // verus!

verus! {

/// A copy of an optional string.
pub fn copy_opt(o: &Option<String>) -> (r: Option<String>)
    ensures
        r == *o,
{
    match o {
        Some(s) => Some(s.clone()),
        None => None,
    }
}

/// A copy of a list of strings.
pub fn copy_strings(v: &Vec<String>) -> (r: Vec<String>)
    ensures
        r@ == v@,
{
    let mut r: Vec<String> = Vec::new();
    let mut i: usize = 0;
    while i < v.len()
        invariant
            i <= v.len(),
            r@ == v@.subrange(0, i as int),
        decreases v.len() - i,
    {
        r.push(v[i].clone());
        i = i + 1;
    }
    assert(r@ =~= v@);
    r
}

/// The characters of a string, in order.
pub fn chars_of(s: &str) -> (r: Vec<char>)
    ensures
        r@ == s@,
{
    let n = s.unicode_len();
    let mut r: Vec<char> = Vec::new();
    let mut i: usize = 0;
    while i < n
        invariant
            n == s@.len(),
            i <= n,
            r@ == s@.subrange(0, i as int),
        decreases n - i,
    {
        r.push(s.get_char(i));
        i = i + 1;
    }
    assert(r@ =~= s@);
    r
}

/// Lexicographic order of character sequences by code point, which is the
/// order Rust's `str`/`String` comparison gives (UTF-8 preserves it).
pub open spec fn seq_lt(a: Seq<char>, b: Seq<char>) -> bool
    decreases a.len(),
{
    if a.len() == 0 {
        b.len() > 0
    } else if b.len() == 0 {
        false
    } else if (a[0] as int) < (b[0] as int) {
        true
    } else if a[0] == b[0] {
        seq_lt(a.drop_first(), b.drop_first())
    } else {
        false
    }
}

fn lt_from(a: &Vec<char>, b: &Vec<char>, i: usize) -> (r: bool)
    requires
        i <= a.len(),
        i <= b.len(),
    ensures
        r == seq_lt(a@.subrange(i as int, a.len() as int), b@.subrange(i as int, b.len() as int)),
    decreases a.len() - i,
{
    let ghost sa = a@.subrange(i as int, a.len() as int);
    let ghost sb = b@.subrange(i as int, b.len() as int);
    if i == a.len() {
        i < b.len()
    } else if i == b.len() {
        false
    } else if a[i] < b[i] {
        assert(sa[0] == a@[i as int] && sb[0] == b@[i as int]);
        true
    } else if a[i] == b[i] {
        let r = lt_from(a, b, i + 1);
        assert(sa.drop_first() =~= a@.subrange(i + 1, a.len() as int));
        assert(sb.drop_first() =~= b@.subrange(i + 1, b.len() as int));
        r
    } else {
        assert(sa[0] == a@[i as int] && sb[0] == b@[i as int]);
        false
    }
}

/// Whether `a` sorts strictly before `b`.
pub fn str_lt(a: &str, b: &str) -> (r: bool)
    ensures
        r == seq_lt(a@, b@),
{
    let va = chars_of(a);
    let vb = chars_of(b);
    let r = lt_from(&va, &vb, 0);
    assert(va@.subrange(0, va.len() as int) =~= a@);
    assert(vb@.subrange(0, vb.len() as int) =~= b@);
    r
}

} // verus!

verus! {

/// Unicode `White_Space`, the property behind `char::is_whitespace`.
pub open spec fn is_space_char(c: char) -> bool {
    let u = c as u32;
    (0x9 <= u && u <= 0xD) || u == 0x20 || u == 0x85 || u == 0xA0 || u == 0x1680
        || (0x2000 <= u && u <= 0x200A) || u == 0x2028 || u == 0x2029 || u == 0x202F
        || u == 0x205F || u == 0x3000
}

/// A string is blank when it is empty after trimming whitespace at both ends,
/// that is, when every character is whitespace.
pub open spec fn is_blank_seq(s: Seq<char>) -> bool {
    forall|i: int| 0 <= i < s.len() ==> #[trigger] is_space_char(s[i])
}

fn space_char(c: char) -> (r: bool)
    ensures
        r == is_space_char(c),
{
    let u = c as u32;
    (0x9 <= u && u <= 0xD) || u == 0x20 || u == 0x85 || u == 0xA0 || u == 0x1680
        || (0x2000 <= u && u <= 0x200A) || u == 0x2028 || u == 0x2029 || u == 0x202F
        || u == 0x205F || u == 0x3000
}

/// Whether `s.trim().is_empty()`.
pub fn is_blank(s: &str) -> (r: bool)
    ensures
        r == is_blank_seq(s@),
{
    let n = s.unicode_len();
    let mut i: usize = 0;
    while i < n
        invariant
            n == s@.len(),
            i <= n,
            forall|j: int| 0 <= j < i ==> #[trigger] is_space_char(s@[j]),
        decreases n - i,
    {
        if !space_char(s.get_char(i)) {
            return false;
        }
        i = i + 1;
    }
    true
}

/// A finished line without the `\r` of a `\r\n` ending.
pub open spec fn strip_cr(line: Seq<char>) -> Seq<char> {
    if line.len() > 0 && line.last() == '\r' {
        line.drop_last()
    } else {
        line
    }
}

/// Reading `s` from the left: the lines finished by a `\n` so far (each
/// without its ending), and the characters after the last `\n`.
pub open spec fn line_scan(s: Seq<char>) -> (Seq<Seq<char>>, Seq<char>)
    decreases s.len(),
{
    if s.len() == 0 {
        (Seq::empty(), Seq::empty())
    } else {
        let (done, rest) = line_scan(s.drop_last());
        if s.last() == '\n' {
            (done.push(strip_cr(rest)), Seq::empty())
        } else {
            (done, rest.push(s.last()))
        }
    }
}

/// The lines of `s` as `str::lines` yields them: split after each `\n`,
/// each line without its `\n` or `\r\n` ending; a last line without a
/// `\n` is kept as it is, and no empty line follows a final `\n`.
pub open spec fn lines_of(s: Seq<char>) -> Seq<Seq<char>> {
    let (done, rest) = line_scan(s);
    if rest.len() > 0 {
        done.push(rest)
    } else {
        done
    }
}

/// The lines of `s`, as `s.lines()` gives them.
pub fn split_lines(s: &str) -> (r: Vec<String>)
    ensures
        views(r@) == lines_of(s@),
{
    let n = s.unicode_len();
    let mut done: Vec<String> = Vec::new();
    let mut cur = String::new();
    // a `\r` read but not yet placed: it ends the line if `\n` follows
    let mut pending_cr = false;
    let mut i: usize = 0;
    while i < n
        invariant
            n == s@.len(),
            i <= n,
            views(done@) == line_scan(s@.subrange(0, i as int)).0,
            (if pending_cr { cur@.push('\r') } else { cur@ }) == line_scan(s@.subrange(0, i as int)).1,
            !pending_cr ==> cur@.len() == 0 || cur@.last() != '\r',
        decreases n - i,
    {
        let ghost before = s@.subrange(0, i as int);
        proof {
            assert(s@.subrange(0, i + 1).drop_last() =~= before);
        }
        let ch = s.get_char(i);
        if ch == '\n' {
            proof {
                if pending_cr {
                    assert(cur@.push('\r').drop_last() =~= cur@);
                }
            }
            let line = cur;
            done.push(line);
            cur = String::new();
            pending_cr = false;
            proof {
                assert(views(done@) =~= line_scan(before).0.push(strip_cr(line_scan(before).1)));
            }
        } else if ch == '\r' {
            if pending_cr {
                cur.push('\r');
            }
            pending_cr = true;
        } else {
            if pending_cr {
                cur.push('\r');
            }
            cur.push(ch);
            pending_cr = false;
        }
        i = i + 1;
    }
    proof {
        assert(s@.subrange(0, n as int) =~= s@);
    }
    if pending_cr {
        cur.push('\r');
    }
    if cur.unicode_len() > 0 {
        done.push(cur);
        proof {
            assert(views(done@) =~= lines_of(s@));
        }
    }
    done
}

/// Whether `s` begins with `p`.
pub open spec fn has_prefix(s: Seq<char>, p: Seq<char>) -> bool {
    p.len() <= s.len() && s.subrange(0, p.len() as int) == p
}

/// `s.strip_prefix(p)`: the rest of `s` after `p`, when `s` begins with `p`.
pub open spec fn strip_prefix_seq(s: Seq<char>, p: Seq<char>) -> Option<Seq<char>> {
    if has_prefix(s, p) {
        Some(s.subrange(p.len() as int, s.len() as int))
    } else {
        None
    }
}

/// `s.strip_prefix(p).map(str::to_string)`.
pub fn strip_prefix(s: &str, p: &str) -> (r: Option<String>)
    ensures
        match r {
            Some(t) => strip_prefix_seq(s@, p@) == Some(t@),
            None => strip_prefix_seq(s@, p@) is None,
        },
{
    let n = s.unicode_len();
    let m = p.unicode_len();
    if m > n {
        return None;
    }
    let mut i: usize = 0;
    while i < m
        invariant
            n == s@.len(),
            m == p@.len(),
            m <= n,
            i <= m,
            forall|j: int| 0 <= j < i ==> s@[j] == p@[j],
        decreases m - i,
    {
        if s.get_char(i) != p.get_char(i) {
            assert(s@.subrange(0, m as int)[i as int] != p@[i as int]);
            return None;
        }
        i = i + 1;
    }
    assert(s@.subrange(0, m as int) =~= p@);
    Some(String::from_str(s.substring_char(m, n)))
}

/// The parts joined with `sep` between consecutive parts.
pub open spec fn join_seq(parts: Seq<Seq<char>>, sep: Seq<char>) -> Seq<char>
    decreases parts.len(),
{
    if parts.len() == 0 {
        Seq::empty()
    } else if parts.len() == 1 {
        parts[0]
    } else {
        join_seq(parts.drop_last(), sep) + sep + parts.last()
    }
}

/// Where part `i` starts in `join_seq(parts, sep)`: after every earlier
/// part and the separator that follows each.
pub open spec fn part_offset(parts: Seq<Seq<char>>, sep: Seq<char>, i: int) -> int
    decreases i,
{
    if i <= 0 {
        0
    } else {
        part_offset(parts, sep, i - 1) + parts[i - 1].len() + sep.len()
    }
}

proof fn lemma_part_offset_prefix(parts: Seq<Seq<char>>, sep: Seq<char>, i: int)
    requires
        0 <= i < parts.len(),
    ensures
        part_offset(parts.drop_last(), sep, i) == part_offset(parts, sep, i),
    decreases i,
{
    if i > 0 {
        lemma_part_offset_prefix(parts, sep, i - 1);
    }
}

/// A joined text is as long as its parts and the separators between them.
pub proof fn lemma_join_len(parts: Seq<Seq<char>>, sep: Seq<char>)
    requires
        parts.len() > 0,
    ensures
        join_seq(parts, sep).len() == part_offset(parts, sep, parts.len() - 1) + parts.last().len(),
    decreases parts.len(),
{
    if parts.len() > 1 {
        let p = parts.drop_last();
        lemma_join_len(p, sep);
        lemma_part_offset_prefix(parts, sep, parts.len() - 2);
    }
}

/// Joining keeps every part, in order: part `i` stands whole in the joined
/// text at `part_offset(parts, sep, i)`, after every earlier part and its
/// separator.
pub proof fn lemma_join_places_parts(parts: Seq<Seq<char>>, sep: Seq<char>, i: int)
    requires
        0 <= i < parts.len(),
    ensures
        part_offset(parts, sep, i) + parts[i].len() <= join_seq(parts, sep).len(),
        join_seq(parts, sep).subrange(part_offset(parts, sep, i), part_offset(parts, sep, i) + parts[i].len()) == parts[i],
        forall|j: int| 0 <= j < i ==> part_offset(parts, sep, j) + parts[j].len() + sep.len() <= part_offset(parts, sep, i),
    decreases parts.len(),
{
    lemma_part_offset_grows(parts, sep, i);
    if parts.len() == 1 {
        assert(join_seq(parts, sep).subrange(0, parts[0].len() as int) =~= parts[0]);
    } else {
        let p = parts.drop_last();
        let n = parts.len() - 1;
        lemma_join_len(p, sep);
        lemma_part_offset_prefix(parts, sep, n - 1);
        let jp = join_seq(p, sep);
        assert(join_seq(parts, sep) == jp + sep + parts.last());
        if i < n {
            lemma_join_places_parts(p, sep, i);
            lemma_part_offset_prefix(parts, sep, i);
            lemma_part_offset_grows(p, sep, i);
            assert(p[i] == parts[i]);
            assert(join_seq(parts, sep).subrange(part_offset(parts, sep, i), part_offset(parts, sep, i) + parts[i].len())
                =~= jp.subrange(part_offset(p, sep, i), part_offset(p, sep, i) + p[i].len()));
        } else {
            assert(part_offset(parts, sep, n) == jp.len() + sep.len());
            assert(join_seq(parts, sep).subrange(part_offset(parts, sep, i), part_offset(parts, sep, i) + parts[i].len())
                =~= parts.last());
        }
    }
}

proof fn lemma_part_offset_grows(parts: Seq<Seq<char>>, sep: Seq<char>, i: int)
    requires
        0 <= i <= parts.len(),
    ensures
        part_offset(parts, sep, i) >= 0,
        forall|j: int| 0 <= j < i ==> part_offset(parts, sep, j) + parts[j].len() + sep.len() <= part_offset(parts, sep, i),
    decreases i,
{
    if i > 0 {
        lemma_part_offset_grows(parts, sep, i - 1);
        assert(part_offset(parts, sep, i) == part_offset(parts, sep, i - 1) + parts[i - 1].len() + sep.len());
    }
}

/// The views of a list of strings.
pub open spec fn views(v: Seq<String>) -> Seq<Seq<char>> {
    v.map_values(|s: String| s@)
}

/// `parts.join(sep)`.
pub fn join(parts: &Vec<String>, sep: &str) -> (r: String)
    ensures
        r@ == join_seq(views(parts@), sep@),
{
    let mut r = String::new();
    let mut i: usize = 0;
    while i < parts.len()
        invariant
            i <= parts.len(),
            r@ == join_seq(views(parts@.subrange(0, i as int)), sep@),
        decreases parts.len() - i,
    {
        let ghost before = views(parts@.subrange(0, i as int));
        let ghost after = views(parts@.subrange(0, i + 1));
        assert(after.drop_last() =~= before);
        assert(after.last() == parts@[i as int]@);
        if i > 0 {
            r.append(sep);
        } else {
            assert(before =~= Seq::<Seq<char>>::empty());
        }
        r.append(parts[i].as_str());
        i = i + 1;
    }
    assert(parts@.subrange(0, parts.len() as int) =~= parts@);
    r
}

/// `n` copies of `c`.
pub open spec fn repeat_seq(c: char, n: nat) -> Seq<char> {
    Seq::new(n, |i: int| c)
}

/// Appends `n` copies of `c`.
pub fn push_repeat(out: &mut String, c: char, n: usize)
    ensures
        final(out)@ == old(out)@ + repeat_seq(c, n as nat),
{
    let ghost start = out@;
    let mut i: usize = 0;
    while i < n
        invariant
            i <= n,
            out@ == start + repeat_seq(c, i as nat),
        decreases n - i,
    {
        out.push(c);
        i = i + 1;
        assert(out@ =~= start + repeat_seq(c, i as nat));
    }
}

/// `format!("{:<width$}", s)`: `s` followed by spaces up to `width` characters.
pub open spec fn pad_right_seq(s: Seq<char>, width: nat) -> Seq<char> {
    if s.len() >= width { s } else { s + repeat_seq(' ', (width - s.len()) as nat) }
}

/// `format!("{:>width$}", s)`: spaces up to `width` characters, then `s`.
pub open spec fn pad_left_seq(s: Seq<char>, width: nat) -> Seq<char> {
    if s.len() >= width { s } else { repeat_seq(' ', (width - s.len()) as nat) + s }
}

/// Left-aligned padding to `width` characters.
pub fn pad_right(s: &str, width: usize) -> (r: String)
    ensures
        r@ == pad_right_seq(s@, width as nat),
{
    let n = s.unicode_len();
    let mut r = String::from_str(s);
    if n < width {
        push_repeat(&mut r, ' ', width - n);
    }
    r
}

/// Right-aligned padding to `width` characters.
pub fn pad_left(s: &str, width: usize) -> (r: String)
    ensures
        r@ == pad_left_seq(s@, width as nat),
{
    let n = s.unicode_len();
    let mut r = String::new();
    if n < width {
        push_repeat(&mut r, ' ', width - n);
    }
    r.append(s);
    r
}

} // verus!

verus! {

/// Whether two strings hold the same characters.
pub fn same(a: &str, b: &str) -> (r: bool)
    ensures
        r == (a@ == b@),
{
    let n = a.unicode_len();
    let m = b.unicode_len();
    if n != m {
        return false;
    }
    let mut i: usize = 0;
    while i < n
        invariant
            n == a@.len(),
            m == b@.len(),
            n == m,
            i <= n,
            forall|j: int| 0 <= j < i ==> a@[j] == b@[j],
        decreases n - i,
    {
        if a.get_char(i) != b.get_char(i) {
            return false;
        }
        i = i + 1;
    }
    assert(a@ =~= b@);
    true
}

/// `a` followed by `b`.
pub fn cat(a: &str, b: &str) -> (r: String)
    ensures
        r@ == a@ + b@,
{
    let mut r = String::from_str(a);
    r.append(b);
    r
}

} // verus!

verus! {

/// `seq_lt` never holds of a sequence and itself.
pub proof fn lemma_seq_lt_irreflexive(a: Seq<char>)
    ensures
        !seq_lt(a, a),
    decreases a.len(),
{
    if a.len() > 0 {
        lemma_seq_lt_irreflexive(a.drop_first());
    }
}

/// `seq_lt` is transitive.
pub proof fn lemma_seq_lt_transitive(a: Seq<char>, b: Seq<char>, c: Seq<char>)
    requires
        seq_lt(a, b),
        seq_lt(b, c),
    ensures
        seq_lt(a, c),
    decreases a.len(),
{
    if a.len() > 0 && b.len() > 0 && c.len() > 0 {
        if a[0] == b[0] && b[0] == c[0] {
            lemma_seq_lt_transitive(a.drop_first(), b.drop_first(), c.drop_first());
        }
    }
}

/// Two different sequences are ordered one way or the other.
pub proof fn lemma_seq_lt_total(a: Seq<char>, b: Seq<char>)
    requires
        a != b,
    ensures
        seq_lt(a, b) || seq_lt(b, a),
    decreases a.len(),
{
    if a.len() == 0 {
        assert(b.len() > 0) by {
            if b.len() == 0 {
                assert(a =~= b);
            }
        }
    } else if b.len() > 0 {
        if a[0] == b[0] {
            if a.drop_first() == b.drop_first() {
                assert(a =~= seq![a[0]] + a.drop_first());
                assert(b =~= seq![b[0]] + b.drop_first());
            } else {
                lemma_seq_lt_total(a.drop_first(), b.drop_first());
            }
        } else {
            assert((a[0] as int) != (b[0] as int));
        }
    }
}

} // verus!
