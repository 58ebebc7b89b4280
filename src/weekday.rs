use vstd::prelude::*;

verus! {

/// Korean weekday name for a Japanese weekday glyph; the empty string for
/// any other text.
pub open spec fn hangul_of(kanji: Seq<char>) -> Seq<char> {
    if kanji == seq!['月'] {
        seq!['월']
    } else if kanji == seq!['火'] {
        seq!['화']
    } else if kanji == seq!['水'] {
        seq!['수']
    } else if kanji == seq!['木'] {
        seq!['목']
    } else if kanji == seq!['金'] {
        seq!['금']
    } else if kanji == seq!['土'] {
        seq!['토']
    } else if kanji == seq!['日'] {
        seq!['일']
    } else {
        seq![]
    }
}

/// Maps a weekday glyph (`月` .. `日`) to its Korean name. Unknown text maps
/// to the empty string.
pub fn day_kanji_to_hangul(kanji: &str) -> (r: &'static str)
    ensures
        r@ == hangul_of(kanji@),
{
    if kanji.unicode_len() != 1 {
        proof { reveal_strlit(""); }
        return "";
    }
    let c = kanji.get_char(0);
    proof {
        reveal_strlit("월");
        reveal_strlit("화");
        reveal_strlit("수");
        reveal_strlit("목");
        reveal_strlit("금");
        reveal_strlit("토");
        reveal_strlit("일");
        reveal_strlit("");
        assert(kanji@ == seq![c]);
    }
    if c == '月' {
        "월"
    } else if c == '火' {
        "화"
    } else if c == '水' {
        "수"
    } else if c == '木' {
        "목"
    } else if c == '金' {
        "금"
    } else if c == '土' {
        "토"
    } else if c == '日' {
        "일"
    } else {
        ""
    }
}

} // verus!
