//! The text a database value is shown and exported as, for the kinds of
//! values whose text the tool decides itself: bytes in hexadecimal, signed
//! numbers, MySQL dates and times, SQLite values.
use vstd::prelude::*;
use crate::text::{decimal, push_char, push_str, to_owned, usize_to_string, zero_pad};

verus! {

pub open spec fn hex_digit(d: nat) -> char
    recommends
        d < 16,
{
    if d < 10 {
        (('0' as u32) + d) as char
    } else {
        (('a' as u32) + (d - 10)) as char
    }
}

/// Two lowercase hexadecimal digits per byte (`{:02x}`).
pub open spec fn hex_of(bytes: Seq<u8>) -> Seq<char>
    decreases bytes.len(),
{
    if bytes.len() == 0 {
        Seq::empty()
    } else {
        hex_of(bytes.drop_last()) + seq![
            hex_digit((bytes.last() / 16) as nat),
            hex_digit((bytes.last() % 16) as nat),
        ]
    }
}

fn hex_char(d: u8) -> (c: char)
    requires
        d < 16,
    ensures
        c == hex_digit(d as nat),
{
    if d < 10 {
        ((('0' as u8) + d) as char)
    } else {
        ((('a' as u8) + (d - 10)) as char)
    }
}

/// Bytes as lowercase hexadecimal, two digits each.
pub fn bytes_to_hex(bytes: &[u8]) -> (r: String)
    ensures
        r@ == hex_of(bytes@),
{
    let n = bytes.len();
    let mut out = String::new();
    let mut i: usize = 0;
    while i < n
        invariant
            n == bytes@.len(),
            i <= n,
            out@ == hex_of(bytes@.take(i as int)),
        decreases n - i,
    {
        let b = bytes[i];
        assert(bytes@.take(i + 1).drop_last() =~= bytes@.take(i as int));
        assert(bytes@.take(i + 1).last() == b);
        push_char(&mut out, hex_char(b / 16));
        push_char(&mut out, hex_char(b % 16));
        assert(out@ =~= hex_of(bytes@.take(i + 1)));
        i = i + 1;
    }
    assert(bytes@.take(n as int) =~= bytes@);
    out
}

/// A signed number in decimal, `-` in front when negative.
pub open spec fn signed_decimal(v: int) -> Seq<char> {
    if v < 0 {
        "-"@ + decimal((-v) as nat)
    } else {
        decimal(v as nat)
    }
}

fn u64_to_string(n: u64) -> (r: String)
    ensures
        r@ == decimal(n as nat),
    decreases n,
{
    if n < 10 {
        let mut out = String::new();
        push_char(&mut out, crate::text::digit_to_char(n as usize));
        assert(out@ =~= decimal(n as nat));
        out
    } else {
        let mut out = u64_to_string(n / 10);
        push_char(&mut out, crate::text::digit_to_char((n % 10) as usize));
        assert(out@ =~= decimal(n as nat));
        out
    }
}

/// `i64::to_string`.
pub fn i64_to_string(v: i64) -> (r: String)
    ensures
        r@ == signed_decimal(v as int),
{
    if v < 0 {
        let magnitude: u64 = if v == i64::MIN {
            9223372036854775808u64
        } else {
            (-v) as u64
        };
        let mut out = to_owned("-");
        push_str(&mut out, u64_to_string(magnitude).as_str());
        out
    } else {
        u64_to_string(v as u64)
    }
}

/// `u64::to_string`.
pub fn unsigned_to_string(v: u64) -> (r: String)
    ensures
        r@ == decimal(v as nat),
{
    u64_to_string(v)
}

/// `{:0w$}` of a number.
fn padded_number(n: u64, w: usize) -> (r: String)
    ensures
        r@ == zero_pad(decimal(n as nat), w as nat),
{
    let d = u64_to_string(n);
    let len = d.unicode_len();
    if len < w {
        let mut out = String::new();
        let k = w - len;
        let mut i: usize = 0;
        while i < k
            invariant
                i <= k,
                out@ == Seq::new(i as nat, |j: int| '0'),
            decreases k - i,
        {
            push_char(&mut out, '0');
            assert(out@ =~= Seq::new((i + 1) as nat, |j: int| '0'));
            i = i + 1;
        }
        push_str(&mut out, d.as_str());
        out
    } else {
        d
    }
}

/// A value MySQL returns, with the parts whose text the tool decides; the
/// text of bytes and of floating-point numbers comes ready made.
#[derive(Clone, Debug)]
pub enum MysqlCell {
    Null,
    Text(String),
    Int(i64),
    UInt(u64),
    Date(u16, u8, u8, u8, u8, u8, u32),
    Time(bool, u32, u8, u8, u8, u32),
}

pub open spec fn two(n: nat) -> Seq<char> {
    zero_pad(decimal(n), 2)
}

/// The text of a MySQL value: dates as `YYYY-MM-DD hh:mm:ss.uuuuuu`, times
/// as `[-]D hh:mm:ss.uuuuuu`, NULL as nothing.
pub open spec fn mysql_text(v: MysqlCell) -> Seq<char> {
    match v {
        MysqlCell::Null => Seq::empty(),
        MysqlCell::Text(s) => s@,
        MysqlCell::Int(i) => signed_decimal(i as int),
        MysqlCell::UInt(u) => decimal(u as nat),
        MysqlCell::Date(y, m, d, hh, mm, ss, us) => zero_pad(decimal(y as nat), 4) + "-"@ + two(
            m as nat,
        ) + "-"@ + two(d as nat) + " "@ + two(hh as nat) + ":"@ + two(mm as nat) + ":"@ + two(
            ss as nat,
        ) + "."@ + zero_pad(decimal(us as nat), 6),
        MysqlCell::Time(neg, days, hh, mm, ss, us) => (if neg {
            "-"@
        } else {
            Seq::empty()
        }) + decimal(days as nat) + " "@ + two(hh as nat) + ":"@ + two(mm as nat) + ":"@ + two(
            ss as nat,
        ) + "."@ + zero_pad(decimal(us as nat), 6),
    }
}

/// The text a MySQL value is shown as.
pub fn mysql_value_to_string(v: &MysqlCell) -> (r: String)
    ensures
        r@ == mysql_text(*v),
{
    match v {
        MysqlCell::Null => String::new(),
        MysqlCell::Text(s) => to_owned(s.as_str()),
        MysqlCell::Int(i) => i64_to_string(*i),
        MysqlCell::UInt(u) => u64_to_string(*u),
        MysqlCell::Date(y, m, d, hh, mm, ss, us) => {
            let mut out = padded_number(*y as u64, 4);
            push_str(&mut out, "-");
            push_str(&mut out, padded_number(*m as u64, 2).as_str());
            push_str(&mut out, "-");
            push_str(&mut out, padded_number(*d as u64, 2).as_str());
            push_str(&mut out, " ");
            push_str(&mut out, padded_number(*hh as u64, 2).as_str());
            push_str(&mut out, ":");
            push_str(&mut out, padded_number(*mm as u64, 2).as_str());
            push_str(&mut out, ":");
            push_str(&mut out, padded_number(*ss as u64, 2).as_str());
            push_str(&mut out, ".");
            push_str(&mut out, padded_number(*us as u64, 6).as_str());
            out
        },
        MysqlCell::Time(neg, days, hh, mm, ss, us) => {
            let mut out = if *neg {
                to_owned("-")
            } else {
                String::new()
            };
            push_str(&mut out, u64_to_string(*days as u64).as_str());
            push_str(&mut out, " ");
            push_str(&mut out, padded_number(*hh as u64, 2).as_str());
            push_str(&mut out, ":");
            push_str(&mut out, padded_number(*mm as u64, 2).as_str());
            push_str(&mut out, ":");
            push_str(&mut out, padded_number(*ss as u64, 2).as_str());
            push_str(&mut out, ".");
            push_str(&mut out, padded_number(*us as u64, 6).as_str());
            out
        },
    }
}

/// A value SQL Server or PostgreSQL returns, with the parts whose text the
/// tool decides; the text of strings, floating-point and decimal numbers,
/// GUIDs and dates comes ready made.
#[derive(Clone, Debug)]
pub enum ServerCell {
    Null,
    Int(i64),
    Bit(bool),
    Text(String),
    Binary(Vec<u8>),
}

/// How a query shows such a value: numbers in decimal, bits as `true` or
/// `false`, binary data in hexadecimal, NULL as nothing.
pub open spec fn server_shown(v: ServerCell) -> Option<Seq<char>> {
    match v {
        ServerCell::Null => None,
        ServerCell::Int(i) => Some(signed_decimal(i as int)),
        ServerCell::Bit(b) => Some(
            if b {
                "true"@
            } else {
                "false"@
            },
        ),
        ServerCell::Text(s) => Some(s@),
        ServerCell::Binary(b) => Some(hex_of(b@)),
    }
}

pub fn column_data_to_string(v: &ServerCell) -> (r: Option<String>)
    ensures
        match r {
            Some(s) => server_shown(*v) == Some(s@),
            None => server_shown(*v) is None,
        },
{
    match v {
        ServerCell::Null => None,
        ServerCell::Int(i) => Some(i64_to_string(*i)),
        ServerCell::Bit(b) => Some(
            to_owned(
                if *b {
                    "true"
                } else {
                    "false"
                },
            ),
        ),
        ServerCell::Text(s) => Some(to_owned(s.as_str())),
        ServerCell::Binary(b) => Some(bytes_to_hex(b.as_slice())),
    }
}

/// A value SQLite returns; the text of text values and of floating-point
/// numbers comes ready made.
#[derive(Clone, Debug)]
pub enum SqliteCell {
    Null,
    Integer(i64),
    Text(String),
    Blob(Vec<u8>),
}

/// How a query shows a SQLite value: a blob by its size only.
pub open spec fn sqlite_shown(v: SqliteCell) -> Option<Seq<char>> {
    match v {
        SqliteCell::Null => None,
        SqliteCell::Integer(i) => Some(signed_decimal(i as int)),
        SqliteCell::Text(s) => Some(s@),
        SqliteCell::Blob(b) => Some("<"@ + decimal(b@.len()) + " bytes blob>"@),
    }
}

pub fn sqlite_cell_text(v: &SqliteCell) -> (r: Option<String>)
    ensures
        match r {
            Some(s) => sqlite_shown(*v) == Some(s@),
            None => sqlite_shown(*v) is None,
        },
{
    match v {
        SqliteCell::Null => None,
        SqliteCell::Integer(i) => Some(i64_to_string(*i)),
        SqliteCell::Text(s) => Some(to_owned(s.as_str())),
        SqliteCell::Blob(b) => {
            let mut out = to_owned("<");
            push_str(&mut out, usize_to_string(b.len()).as_str());
            push_str(&mut out, " bytes blob>");
            Some(out)
        },
    }
}

/// How an import writes a SQLite value into an INSERT: NULL as `NULL`, any
/// other value as a quoted, escaped string, a blob by its bytes in
/// hexadecimal.
pub open spec fn import_value_sql(v: SqliteCell) -> Seq<char> {
    match v {
        SqliteCell::Null => "NULL"@,
        SqliteCell::Integer(i) => crate::sql_text::sql_quoted(signed_decimal(i as int)),
        SqliteCell::Text(s) => crate::sql_text::sql_quoted(s@),
        SqliteCell::Blob(b) => crate::sql_text::sql_quoted(hex_of(b@)),
    }
}

pub fn import_value_text(v: &SqliteCell) -> (r: String)
    ensures
        r@ == import_value_sql(*v),
{
    match v {
        SqliteCell::Null => to_owned("NULL"),
        SqliteCell::Integer(i) => crate::sql_text::sql_quote(i64_to_string(*i).as_str()),
        SqliteCell::Text(s) => crate::sql_text::sql_quote(s.as_str()),
        SqliteCell::Blob(b) => crate::sql_text::sql_quote(bytes_to_hex(b.as_slice()).as_str()),
    }
}

} // verus!
