use vstd::prelude::*;

verus! {

/// Why a textual coordinate was rejected by the checked parser.
#[derive(Debug, Clone, Copy, PartialEq, Eq, Structural)]
pub enum CoordError {
    WrongLength,
    BadFile,
    BadRank,
}

pub open spec fn file_char_ok(c: char) -> bool {
    'a' as int <= c as int && c as int <= 'h' as int
}

pub open spec fn rank_char_ok(c: char) -> bool {
    '1' as int <= c as int && c as int <= '8' as int
}

/// A string that the low-level codec accepts: it starts with a file letter
/// and a rank digit, both in range. Trailing characters are tolerated.
pub open spec fn valid_coord(s: Seq<char>) -> bool {
    s.len() >= 2 && file_char_ok(s[0]) && rank_char_ok(s[1])
}

/// A coordinate in strict form: exactly two characters, file then rank.
pub open spec fn strict_coord(s: Seq<char>) -> bool {
    s.len() == 2 && file_char_ok(s[0]) && rank_char_ok(s[1])
}

/// Zero-based row of the named square: row 0 is rank "1".
pub open spec fn coord_row(s: Seq<char>) -> int {
    s[1] as int - '1' as int
}

/// Zero-based column of the named square: column 0 is file "a".
pub open spec fn coord_col(s: Seq<char>) -> int {
    s[0] as int - 'a' as int
}

/// Checked front door of the codec: rejects malformed coordinates with a
/// reason instead of failing at the indexing arithmetic.
pub fn parse_coordinate(coordinate: &str) -> (r: Result<(usize, usize), CoordError>)
    ensures
        r is Ok <==> strict_coord(coordinate@),
        r is Ok ==> r->Ok_0.0 == coord_row(coordinate@) && r->Ok_0.1 == coord_col(coordinate@),
        r is Ok ==> r->Ok_0.0 < 8 && r->Ok_0.1 < 8,
        r == Err::<(usize, usize), CoordError>(CoordError::WrongLength) <==> coordinate@.len() != 2,
        r == Err::<(usize, usize), CoordError>(CoordError::BadFile) <==> (coordinate@.len() == 2
            && !file_char_ok(coordinate@[0])),
        r == Err::<(usize, usize), CoordError>(CoordError::BadRank) <==> (coordinate@.len() == 2
            && file_char_ok(coordinate@[0]) && !rank_char_ok(coordinate@[1])),
{
    let n = coordinate.unicode_len();
    if n != 2 {
        return Err(CoordError::WrongLength);
    }
    let file_char = coordinate.get_char(0);
    let fv: u32 = file_char as u32;
    if fv < 'a' as u32 || fv > 'h' as u32 {
        return Err(CoordError::BadFile);
    }
    let rank_char = coordinate.get_char(1);
    let rv: u32 = rank_char as u32;
    if rv < '1' as u32 || rv > '8' as u32 {
        return Err(CoordError::BadRank);
    }
    let col: usize = (fv - 'a' as u32) as usize;
    let row: usize = (rv - '1' as u32) as usize;
    Ok((row, col))
}

} // verus!
