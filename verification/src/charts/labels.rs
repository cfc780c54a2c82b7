//! Text of the time axis and of the crosshair's date badge. Bar dates are
//! `YYYY-MM-DD...` keys; their fields are cut out by byte offsets.

use vstd::prelude::*;
use vstd::string::StringSliceAdditionalSpecFns;
use vstd::utf8::{decode_utf8, encode_utf8_valid_utf8, is_char_boundary};
use crate::text::{byte_slice, str_equal};

verus! {

/// Three-letter English month name of a two-digit month; any other text
/// stands for itself.
pub open spec fn month_name(mm: Seq<char>) -> Seq<char> {
    if mm == "01"@ {
        "Jan"@
    } else if mm == "02"@ {
        "Feb"@
    } else if mm == "03"@ {
        "Mar"@
    } else if mm == "04"@ {
        "Apr"@
    } else if mm == "05"@ {
        "May"@
    } else if mm == "06"@ {
        "Jun"@
    } else if mm == "07"@ {
        "Jul"@
    } else if mm == "08"@ {
        "Aug"@
    } else if mm == "09"@ {
        "Sep"@
    } else if mm == "10"@ {
        "Oct"@
    } else if mm == "11"@ {
        "Nov"@
    } else if mm == "12"@ {
        "Dec"@
    } else {
        mm
    }
}

/// The two-digit month numbers, January first.
pub open spec fn month_numbers() -> Seq<Seq<char>> {
    seq!["01"@, "02"@, "03"@, "04"@, "05"@, "06"@, "07"@, "08"@, "09"@, "10"@, "11"@, "12"@]
}

/// The English three-letter month abbreviations in calendar order.
pub open spec fn month_abbreviations() -> Seq<Seq<char>> {
    seq!["Jan"@, "Feb"@, "Mar"@, "Apr"@, "May"@, "Jun"@, "Jul"@, "Aug"@, "Sep"@, "Oct"@, "Nov"@, "Dec"@]
}

/// The k-th month (counting from zero) is labelled with the k-th
/// abbreviation of the calendar, so the twelve labels are pairwise distinct
/// three-letter names; any other text is its own label.
pub proof fn lemma_month_names(k: int, other: Seq<char>)
    requires
        0 <= k < 12,
    ensures
        month_name(month_numbers()[k]) == month_abbreviations()[k],
        month_name(month_numbers()[k]).len() == 3,
        forall|j: int| 0 <= j < 12 && j != k ==> month_name(#[trigger] month_numbers()[j]) != month_name(month_numbers()[k]),
        !month_numbers().contains(other) ==> month_name(other) == other,
{
    reveal_strlit("01");
    reveal_strlit("02");
    reveal_strlit("03");
    reveal_strlit("04");
    reveal_strlit("05");
    reveal_strlit("06");
    reveal_strlit("07");
    reveal_strlit("08");
    reveal_strlit("09");
    reveal_strlit("10");
    reveal_strlit("11");
    reveal_strlit("12");
    reveal_strlit("Jan");
    reveal_strlit("Feb");
    reveal_strlit("Mar");
    reveal_strlit("Apr");
    reveal_strlit("May");
    reveal_strlit("Jun");
    reveal_strlit("Jul");
    reveal_strlit("Aug");
    reveal_strlit("Sep");
    reveal_strlit("Oct");
    reveal_strlit("Nov");
    reveal_strlit("Dec");
    let n = month_numbers();
    let m = month_abbreviations();
    assert(month_name("01"@) == "Jan"@);
    assert("02"@[1] != "01"@[1]);
    assert(month_name("02"@) == "Feb"@);
    assert("03"@[1] != "01"@[1] && "03"@[1] != "02"@[1]);
    assert(month_name("03"@) == "Mar"@);
    assert("04"@[1] != "01"@[1] && "04"@[1] != "02"@[1] && "04"@[1] != "03"@[1]);
    assert(month_name("04"@) == "Apr"@);
    assert("05"@[1] != "01"@[1] && "05"@[1] != "02"@[1] && "05"@[1] != "03"@[1] && "05"@[1] != "04"@[1]);
    assert(month_name("05"@) == "May"@);
    assert("06"@[1] != "01"@[1] && "06"@[1] != "02"@[1] && "06"@[1] != "03"@[1] && "06"@[1] != "04"@[1] && "06"@[1] != "05"@[1]);
    assert(month_name("06"@) == "Jun"@);
    assert("07"@[1] != "01"@[1] && "07"@[1] != "02"@[1] && "07"@[1] != "03"@[1] && "07"@[1] != "04"@[1] && "07"@[1] != "05"@[1] && "07"@[1] != "06"@[1]);
    assert(month_name("07"@) == "Jul"@);
    assert("08"@[1] != "01"@[1] && "08"@[1] != "02"@[1] && "08"@[1] != "03"@[1] && "08"@[1] != "04"@[1] && "08"@[1] != "05"@[1] && "08"@[1] != "06"@[1] && "08"@[1] != "07"@[1]);
    assert(month_name("08"@) == "Aug"@);
    assert("09"@[1] != "01"@[1] && "09"@[1] != "02"@[1] && "09"@[1] != "03"@[1] && "09"@[1] != "04"@[1] && "09"@[1] != "05"@[1] && "09"@[1] != "06"@[1] && "09"@[1] != "07"@[1] && "09"@[1] != "08"@[1]);
    assert(month_name("09"@) == "Sep"@);
    assert("10"@[0] != "01"@[0] && "10"@[0] != "02"@[0] && "10"@[0] != "03"@[0] && "10"@[0] != "04"@[0] && "10"@[0] != "05"@[0] && "10"@[0] != "06"@[0] && "10"@[0] != "07"@[0] && "10"@[0] != "08"@[0] && "10"@[0] != "09"@[0]);
    assert(month_name("10"@) == "Oct"@);
    assert("11"@[0] != "01"@[0] && "11"@[0] != "02"@[0] && "11"@[0] != "03"@[0] && "11"@[0] != "04"@[0] && "11"@[0] != "05"@[0] && "11"@[0] != "06"@[0] && "11"@[0] != "07"@[0] && "11"@[0] != "08"@[0] && "11"@[0] != "09"@[0] && "11"@[1] != "10"@[1]);
    assert(month_name("11"@) == "Nov"@);
    assert("12"@[0] != "01"@[0] && "12"@[0] != "02"@[0] && "12"@[0] != "03"@[0] && "12"@[0] != "04"@[0] && "12"@[0] != "05"@[0] && "12"@[0] != "06"@[0] && "12"@[0] != "07"@[0] && "12"@[0] != "08"@[0] && "12"@[0] != "09"@[0] && "12"@[1] != "10"@[1] && "12"@[1] != "11"@[1]);
    assert(month_name("12"@) == "Dec"@);
    assert forall|i: int| 0 <= i < 12 implies month_name(#[trigger] n[i]) == m[i] by {
        if i == 0 {} else if i == 1 {} else if i == 2 {} else if i == 3 {} else if i == 4 {}
        else if i == 5 {} else if i == 6 {} else if i == 7 {} else if i == 8 {} else if i == 9 {}
        else if i == 10 {} else {}
    }
    assert forall|j: int| 0 <= j < 12 && j != k implies month_name(#[trigger] month_numbers()[j])
        != month_name(month_numbers()[k]) by {
        assert(month_name(n[j]) == m[j]);
        assert(month_name(n[k]) == m[k]);
        assert(m[j][0] != m[k][0] || m[j][1] != m[k][1] || m[j][2] != m[k][2]);
    }
    if !n.contains(other) {
        assert(other != n[0] && other != n[1] && other != n[2] && other != n[3] && other != n[4]
            && other != n[5] && other != n[6] && other != n[7] && other != n[8] && other != n[9]
            && other != n[10] && other != n[11]);
    }
}

/// The month label of the time axis.
pub fn month_label(mm: &str) -> (r: String)
    ensures
        r@ == month_name(mm@),
{
    if str_equal(mm, "01") {
        String::from_str("Jan")
    } else if str_equal(mm, "02") {
        String::from_str("Feb")
    } else if str_equal(mm, "03") {
        String::from_str("Mar")
    } else if str_equal(mm, "04") {
        String::from_str("Apr")
    } else if str_equal(mm, "05") {
        String::from_str("May")
    } else if str_equal(mm, "06") {
        String::from_str("Jun")
    } else if str_equal(mm, "07") {
        String::from_str("Jul")
    } else if str_equal(mm, "08") {
        String::from_str("Aug")
    } else if str_equal(mm, "09") {
        String::from_str("Sep")
    } else if str_equal(mm, "10") {
        String::from_str("Oct")
    } else if str_equal(mm, "11") {
        String::from_str("Nov")
    } else if str_equal(mm, "12") {
        String::from_str("Dec")
    } else {
        String::from_str(mm)
    }
}

/// The bytes `from..to` of a bar key, as characters.
pub open spec fn key_field(b: Seq<u8>, from: int, to: int) -> Seq<char> {
    decode_utf8(b.subrange(from, to))
}

/// A key of at least ten bytes can be cut into its `YYYY`, `MM` and `DD`
/// fields: bytes 4, 5, 7, 8 and 10 fall on character boundaries (always so
/// for an ASCII key).
pub open spec fn date_fields_sliceable(b: Seq<u8>) -> bool {
    b.len() >= 10 ==> {
        &&& is_char_boundary(b, 4)
        &&& is_char_boundary(b, 5)
        &&& is_char_boundary(b, 7)
        &&& is_char_boundary(b, 8)
        &&& is_char_boundary(b, 10)
    }
}

/// Crosshair date badge of a key of at least ten bytes: `MM/DD/YYYY`.
pub open spec fn badge_text(b: Seq<u8>) -> Seq<char> {
    key_field(b, 5, 7) + "/"@ + key_field(b, 8, 10) + "/"@ + key_field(b, 0, 4)
}

/// The date shown under the crosshair: `MM/DD/YYYY` for a `YYYY-MM-DD...`
/// key, the key itself when it is shorter than ten bytes.
pub fn crosshair_date_label(date: &str) -> (r: String)
    requires
        date_fields_sliceable(date.spec_bytes()),
    ensures
        date.spec_bytes().len() >= 10 ==> r@ == badge_text(date.spec_bytes()),
        date.spec_bytes().len() < 10 ==> r@ == date@,
{
    proof {
        encode_utf8_valid_utf8(date@);
    }
    if date.as_bytes().len() >= 10 {
        let mut r = String::from_str(byte_slice(date, 5, 7));
        r.append("/");
        r.append(byte_slice(date, 8, 10));
        r.append("/");
        r.append(byte_slice(date, 0, 4));
        r
    } else {
        String::from_str(date)
    }
}

/// A label placed on the time axis.
#[derive(Debug, Clone, PartialEq, Eq)]
pub enum AxisLabel {
    /// First bar of a new year: the year.
    Year(String),
    /// First bar of a new month: the month's name.
    Month(String),
}

/// The `YYYY-MM` month key of a bar key.
pub open spec fn month_key(b: Seq<char>, mm: Seq<char>) -> Seq<char> {
    b + "-"@ + mm
}

/// Decide the label of one bar of the time axis, updating the last year and
/// month labelled. A new year wins over a new month on January bars; keys
/// shorter than ten bytes and bars inside the month already labelled get
/// none.
pub fn axis_label(date: &str, last_year: &mut String, last_month: &mut String) -> (r: Option<
    AxisLabel,
>)
    requires
        date_fields_sliceable(date.spec_bytes()),
    ensures
        ({
            let b = date.spec_bytes();
            let yyyy = key_field(b, 0, 4);
            let mm = key_field(b, 5, 7);
            &&& b.len() < 10 ==> r is None && final(last_year)@ == old(last_year)@
                && final(last_month)@ == old(last_month)@
            &&& b.len() >= 10 && yyyy != old(last_year)@ ==> (r matches Some(AxisLabel::Year(y))
                && y@ == yyyy) && final(last_year)@ == yyyy && final(last_month)@ == month_key(yyyy, mm)
            &&& b.len() >= 10 && yyyy == old(last_year)@ && month_key(yyyy, mm) != old(last_month)@
                ==> (r matches Some(AxisLabel::Month(m)) && m@ == month_name(mm)) && final(last_year)@
                == old(last_year)@ && final(last_month)@ == month_key(yyyy, mm)
            &&& b.len() >= 10 && yyyy == old(last_year)@ && month_key(yyyy, mm) == old(last_month)@
                ==> r is None && final(last_year)@ == old(last_year)@ && final(last_month)@ == old(last_month)@
        }),
{
    proof {
        encode_utf8_valid_utf8(date@);
    }
    if date.as_bytes().len() < 10 {
        return None;
    }
    let yyyy = byte_slice(date, 0, 4);
    let mm = byte_slice(date, 5, 7);
    let mut month_key = String::from_str(yyyy);
    month_key.append("-");
    month_key.append(mm);
    if !str_equal(yyyy, last_year.as_str()) {
        *last_year = String::from_str(yyyy);
        *last_month = month_key;
        return Some(AxisLabel::Year(String::from_str(yyyy)));
    }
    if !str_equal(month_key.as_str(), last_month.as_str()) {
        *last_month = month_key;
        return Some(AxisLabel::Month(month_label(mm)));
    }
    None
}

} // verus!
