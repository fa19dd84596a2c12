//! The map-file text that the tile server hands to MapServer for each request.

use vstd::prelude::*;
use vstd::arithmetic::div_mod::lemma_fundamental_div_mod;

verus! {

/// The map-file text up to the comment in which the request's timestamp is
/// written.
pub const MAPFILE_HEAD: &'static str = "MAP
          NAME 'default'
          STATUS ON
          PROJECTION
            'init=epsg:3857'
          END
          EXTENT 73.498999 20.207173812500002 135.08835446875 53.561666
          UNITS DD
          DEBUG 5
          CONFIG 'CPL_DEBUG' 'ON'
          CONFIG 'CPL_TIMESTAMP' 'ON'
          CONFIG 'CPL_LOG' '/dev/stderr'
          CONFIG 'CPL_LOG_ERRORS' 'ON'
          CONFIG 'MS_ERRORFILE' '/dev/stderr'
          CONFIG 'GDAL_DISABLE_READDIR_ON_OPEN' 'TRUE'
          CONFIG 'GDAL_FORCE_CACHING' 'NO'
          CONFIG 'GDAL_CACHEMAX' '10%'
          CONFIG 'VSI_CACHE' 'FALSE'
          CONFIG 'VSI_CACHE_SIZE' '0'  # bytes
          CONFIG 'CPL_VSIL_CURL_CACHE_SIZE' '0'  # bytes
          SIZE 256 256
          IMAGECOLOR 255 255 255
          IMAGETYPE 'png'
          SHAPEPATH '/tmp'
          LAYER
            NAME'continents'
            TYPE POLYGON
            STATUS ON
            CONNECTION 'https://demo.mapserver.org/cgi-bin/wfs?'
            CONNECTIONTYPE WFS
            METADATA
              'wfs_typename'          'continents'
              'wfs_version'           '1.0.0'
              'wfs_connectiontimeout' '60'
              'wfs_maxfeatures'       '10'
            END
            PROJECTION
              'init=epsg:4326'
              ";

/// The sign that opens a comment in a map file.
pub const COMMENT_SIGN: &'static str = "#";

/// The map-file text after the request's timestamp.
pub const MAPFILE_TAIL: &'static str = "
            END
            CLASS
              NAME 'Continents'
              STYLE
                COLOR 255 128 128
                OUTLINECOLOR 96 96 96
              END
            END
          END
        END";

/// The character of the decimal digit `d` (`d < 10`).
pub open spec fn digit_char(d: nat) -> char {
    if d == 0 {
        '0'
    } else if d == 1 {
        '1'
    } else if d == 2 {
        '2'
    } else if d == 3 {
        '3'
    } else if d == 4 {
        '4'
    } else if d == 5 {
        '5'
    } else if d == 6 {
        '6'
    } else if d == 7 {
        '7'
    } else if d == 8 {
        '8'
    } else {
        '9'
    }
}

/// The value of a digit character (`'0'` to `'9'`).
pub open spec fn char_value(c: char) -> nat {
    if c == '1' {
        1
    } else if c == '2' {
        2
    } else if c == '3' {
        3
    } else if c == '4' {
        4
    } else if c == '5' {
        5
    } else if c == '6' {
        6
    } else if c == '7' {
        7
    } else if c == '8' {
        8
    } else if c == '9' {
        9
    } else {
        0
    }
}

/// Whether `c` is one of `'0'` to `'9'`.
pub open spec fn is_digit(c: char) -> bool {
    c == '0' || c == '1' || c == '2' || c == '3' || c == '4' || c == '5' || c == '6' || c == '7'
        || c == '8' || c == '9'
}

/// The base-ten numeral of `n`, most significant digit first, without leading zeros.
pub open spec fn decimal_digits(n: nat) -> Seq<char>
    decreases n,
{
    if n < 10 {
        seq![digit_char(n)]
    } else {
        decimal_digits(n / 10).push(digit_char(n % 10))
    }
}

/// The value of a string of digits read in base ten.
pub open spec fn digits_value(s: Seq<char>) -> nat
    decreases s.len(),
{
    if s.len() == 0 {
        0
    } else {
        digits_value(s.drop_last()) * 10 + char_value(s.last())
    }
}

/// How `{}` writes an integer: a minus sign for negative values, then the
/// decimal numeral of the magnitude.
pub open spec fn decimal(n: int) -> Seq<char> {
    if n < 0 {
        seq!['-'] + decimal_digits((-n) as nat)
    } else {
        decimal_digits(n as nat)
    }
}

/// The map file for the tiles of `timestamp`.
pub open spec fn mapfile_text(timestamp: int) -> Seq<char> {
    MAPFILE_HEAD@ + seq!['#'] + decimal(timestamp) + MAPFILE_TAIL@
}

/// The value of the digit character of `d` is `d`.
proof fn char_value_of_digit(d: nat)
    requires
        d < 10,
    ensures
        char_value(digit_char(d)) == d,
        is_digit(digit_char(d)),
        digit_char(d) == '0' <==> d == 0,
{
}

/// The decimal numeral of `n` is made of digits only, has no leading zero
/// (unless it is the numeral of zero), and reads back as `n`.
pub proof fn decimal_digits_round_trip(n: nat)
    ensures
        decimal_digits(n).len() >= 1,
        forall|i: int| 0 <= i < decimal_digits(n).len() ==> is_digit(#[trigger] decimal_digits(n)[i]),
        decimal_digits(n)[0] == '0' ==> n == 0,
        digits_value(decimal_digits(n)) == n,
    decreases n,
{
    if n < 10 {
        char_value_of_digit(n);
        assert(decimal_digits(n).drop_last() =~= Seq::<char>::empty());
        assert(digits_value(Seq::<char>::empty()) == 0);
    } else {
        let q = n / 10;
        let r = n % 10;
        decimal_digits_round_trip(q);
        char_value_of_digit(r);
        let s = decimal_digits(n);
        assert(s =~= decimal_digits(q).push(digit_char(r)));
        assert(s.drop_last() =~= decimal_digits(q));
        assert(s[0] == decimal_digits(q)[0]);
        assert forall|i: int| 0 <= i < s.len() implies is_digit(#[trigger] s[i]) by {
            if i < s.len() - 1 {
                assert(s[i] == decimal_digits(q)[i]);
            }
        }
        lemma_fundamental_div_mod(n as int, 10);
        assert(s.last() == digit_char(r));
        assert(digits_value(s) == digits_value(decimal_digits(q)) * 10 + r);
        assert(digits_value(s) == q * 10 + r);
        assert(q >= 1);
    }
}

/// Two integers with the same decimal rendering are equal.
pub proof fn decimal_is_injective(a: int, b: int)
    requires
        decimal(a) == decimal(b),
    ensures
        a == b,
{
    if a < 0 {
        decimal_digits_round_trip((-a) as nat);
        if b < 0 {
            decimal_digits_round_trip((-b) as nat);
            assert(decimal(a).drop_first() =~= decimal_digits((-a) as nat));
            assert(decimal(b).drop_first() =~= decimal_digits((-b) as nat));
        } else {
            decimal_digits_round_trip(b as nat);
            assert(decimal(a)[0] == '-');
            assert(is_digit(decimal(b)[0]));
        }
    } else {
        decimal_digits_round_trip(a as nat);
        if b < 0 {
            decimal_digits_round_trip((-b) as nat);
            assert(decimal(b)[0] == '-');
            assert(is_digit(decimal(a)[0]));
        } else {
            decimal_digits_round_trip(b as nat);
        }
    }
}

/// Each timestamp has its own map file: equal map-file texts come from equal
/// timestamps.
pub proof fn mapfile_text_determines_timestamp(t1: int, t2: int)
    requires
        mapfile_text(t1) == mapfile_text(t2),
    ensures
        t1 == t2,
{
    let h = MAPFILE_HEAD@.len() + 1int;
    let x = mapfile_text(t1);
    let y = mapfile_text(t2);
    assert(decimal(t1) =~= x.subrange(h, x.len() - MAPFILE_TAIL@.len()));
    assert(decimal(t2) =~= y.subrange(h, y.len() - MAPFILE_TAIL@.len()));
    decimal_is_injective(t1, t2);
}

/// Whether a map-file reader is inside a comment after reading `c`, given
/// whether it was before: `#` opens a comment and a line break closes it.
pub open spec fn in_comment_after(in_comment: bool, c: char) -> bool {
    if c == '\n' {
        false
    } else if c == '#' {
        true
    } else {
        in_comment
    }
}

/// Whether a reader that starts in the given comment state is inside a
/// comment after reading all of `s`.
pub open spec fn comment_state_after(s: Seq<char>, in_comment: bool) -> bool
    decreases s.len(),
{
    if s.len() == 0 {
        in_comment
    } else {
        comment_state_after(s.drop_first(), in_comment_after(in_comment, s[0]))
    }
}

/// The text of `s` with its comments cut out, for a reader that starts in
/// the given comment state: every line is cut at its first `#`.
pub open spec fn strip_from(s: Seq<char>, in_comment: bool) -> Seq<char>
    decreases s.len(),
{
    if s.len() == 0 {
        Seq::<char>::empty()
    } else {
        let c = s[0];
        let kept = if c == '\n' || (!in_comment && c != '#') {
            seq![c]
        } else {
            Seq::<char>::empty()
        };
        kept + strip_from(s.drop_first(), in_comment_after(in_comment, c))
    }
}

/// The map-file text that MapServer reads as definitions: every line cut at
/// its first `#`.
pub open spec fn strip_comments(s: Seq<char>) -> Seq<char> {
    strip_from(s, false)
}

/// Cutting comments out of `a + b` cuts them out of `a`, then out of `b` in
/// the comment state that `a` leaves.
proof fn strip_from_concat(a: Seq<char>, b: Seq<char>, in_comment: bool)
    ensures
        strip_from(a + b, in_comment) == strip_from(a, in_comment) + strip_from(
            b,
            comment_state_after(a, in_comment),
        ),
        comment_state_after(a + b, in_comment) == comment_state_after(
            b,
            comment_state_after(a, in_comment),
        ),
    decreases a.len(),
{
    if a.len() == 0 {
        assert(a + b =~= b);
    } else {
        let next = in_comment_after(in_comment, a[0]);
        strip_from_concat(a.drop_first(), b, next);
        assert((a + b).drop_first() =~= a.drop_first() + b);
        assert((a + b)[0] == a[0]);
    }
}

/// Text without line breaks read inside a comment is cut out entirely and
/// leaves the reader inside the comment.
proof fn strip_inside_comment(s: Seq<char>)
    requires
        forall|i: int| 0 <= i < s.len() ==> s[i] != '\n',
    ensures
        strip_from(s, true) == Seq::<char>::empty(),
        comment_state_after(s, true),
    decreases s.len(),
{
    if s.len() > 0 {
        assert(s[0] != '\n');
        let rest = s.drop_first();
        assert forall|i: int| 0 <= i < rest.len() implies rest[i] != '\n' by {
            assert(rest[i] == s[i + 1]);
        }
        strip_inside_comment(rest);
        assert(strip_from(s, true) =~= Seq::<char>::empty() + strip_from(rest, true));
    }
}

/// The decimal rendering of an integer holds no line break.
proof fn decimal_has_no_line_break(n: int)
    ensures
        forall|i: int| 0 <= i < decimal(n).len() ==> decimal(n)[i] != '\n',
{
    if n < 0 {
        decimal_digits_round_trip((-n) as nat);
        let d = decimal_digits((-n) as nat);
        assert forall|i: int| 0 <= i < decimal(n).len() implies decimal(n)[i] != '\n' by {
            if i > 0 {
                assert(decimal(n)[i] == d[i - 1]);
                assert(is_digit(d[i - 1]));
            }
        }
    } else {
        decimal_digits_round_trip(n as nat);
        assert forall|i: int| 0 <= i < decimal(n).len() implies decimal(n)[i] != '\n' by {
            assert(is_digit(decimal(n)[i]));
        }
    }
}

/// The timestamp is written only inside a comment: with every line cut at its
/// first `#`, the map files of any two timestamps are the same, so the
/// timestamp never changes the map that MapServer reads.
pub proof fn timestamp_is_only_in_a_comment(t1: int, t2: int)
    ensures
        strip_comments(mapfile_text(t1)) == strip_comments(mapfile_text(t2)),
{
    let h = MAPFILE_HEAD@ + seq!['#'];
    strip_from_concat(MAPFILE_HEAD@, seq!['#'], false);
    let st = comment_state_after(MAPFILE_HEAD@, false);
    assert(seq!['#'].drop_first() =~= Seq::<char>::empty());
    assert(seq!['#'][0] == '#');
    assert(comment_state_after(Seq::<char>::empty(), true));
    assert(comment_state_after(seq!['#'], st));
    assert(comment_state_after(h, false));
    assert forall|t: int|
        strip_comments(#[trigger] mapfile_text(t)) == strip_from(h, false) + strip_from(
            MAPFILE_TAIL@,
            true,
        ) by {
        let d = decimal(t);
        decimal_has_no_line_break(t);
        strip_inside_comment(d);
        strip_from_concat(h, d, false);
        strip_from_concat(h + d, MAPFILE_TAIL@, false);
        assert(mapfile_text(t) == (h + d) + MAPFILE_TAIL@);
        assert(strip_from(h + d, false) =~= strip_from(h, false));
    }
    assert(strip_comments(mapfile_text(t1)) == strip_from(h, false) + strip_from(
        MAPFILE_TAIL@,
        true,
    ));
    assert(strip_comments(mapfile_text(t2)) == strip_from(h, false) + strip_from(
        MAPFILE_TAIL@,
        true,
    ));
}

/// The one-character string of the digit `d`.
fn digit_str(d: u64) -> (s: &'static str)
    requires
        d < 10,
    ensures
        s@ == seq![digit_char(d as nat)],
{
    if d == 0 {
        proof { reveal_strlit("0"); }
        "0"
    } else if d == 1 {
        proof { reveal_strlit("1"); }
        "1"
    } else if d == 2 {
        proof { reveal_strlit("2"); }
        "2"
    } else if d == 3 {
        proof { reveal_strlit("3"); }
        "3"
    } else if d == 4 {
        proof { reveal_strlit("4"); }
        "4"
    } else if d == 5 {
        proof { reveal_strlit("5"); }
        "5"
    } else if d == 6 {
        proof { reveal_strlit("6"); }
        "6"
    } else if d == 7 {
        proof { reveal_strlit("7"); }
        "7"
    } else if d == 8 {
        proof { reveal_strlit("8"); }
        "8"
    } else {
        proof { reveal_strlit("9"); }
        "9"
    }
}

/// Appends the decimal numeral of `n` to `s`.
fn append_digits(s: &mut String, n: u64)
    ensures
        final(s)@ == old(s)@ + decimal_digits(n as nat),
    decreases n,
{
    let ghost before = s@;
    if n >= 10 {
        append_digits(s, n / 10);
    }
    s.append(digit_str(n % 10));
    assert(s@ =~= before + decimal_digits(n as nat));
}

/// Writes the map file for the tiles of `timestamp`: the fixed template with
/// the timestamp written in decimal in the comment of the layer's projection.
pub fn make_mapfile_str(timestamp: i64) -> (res: String)
    ensures
        res@ == mapfile_text(timestamp as int),
{
    let mut res = String::from_str(MAPFILE_HEAD);
    proof { reveal_strlit("#"); }
    res.append(COMMENT_SIGN);
    if timestamp < 0 {
        proof { reveal_strlit("-"); }
        res.append("-");
        // -(timestamp + 1) cannot overflow, even for i64::MIN.
        let magnitude: u64 = (-(timestamp + 1)) as u64 + 1;
        append_digits(&mut res, magnitude);
        assert(res@ =~= MAPFILE_HEAD@ + seq!['#'] + decimal(timestamp as int));
    } else {
        append_digits(&mut res, timestamp as u64);
    }
    res.append(MAPFILE_TAIL);
    res
}

} // verus!
