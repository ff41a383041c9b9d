use vstd::prelude::*;

verus! {

/// One line (yao) of a trigram or hexagram: broken (yin) or solid (yang).
#[derive(Clone, Copy, Debug, PartialEq, Eq, Structural)]
pub enum Yao {
    Yin,
    Yang,
}

/// One of the eight three-line figures, lines listed bottom to top.
#[derive(Clone, Copy, Debug)]
pub struct Trigram {
    pub index: u8,
    pub name: &'static str,
    pub symbol: &'static str,
    pub lines: [Yao; 3],
}

/// The identity that a requested index resolves to: 1 to 8 stand for
/// themselves, anything else falls to the last trigram (Kun).
pub open spec fn canonical_identity(i: u8) -> u8 {
    if 1 <= i && i <= 8 { i } else { 8 }
}

/// Lines of the trigram with identity `id`, bottom to top, in the
/// traditional order Qian, Dui, Li, Zhen, Xun, Kan, Gen, Kun.
pub open spec fn trigram_lines(id: u8) -> Seq<Yao> {
    if id == 1 {
        seq![Yao::Yang, Yao::Yang, Yao::Yang]
    } else if id == 2 {
        seq![Yao::Yang, Yao::Yang, Yao::Yin]
    } else if id == 3 {
        seq![Yao::Yang, Yao::Yin, Yao::Yang]
    } else if id == 4 {
        seq![Yao::Yang, Yao::Yin, Yao::Yin]
    } else if id == 5 {
        seq![Yao::Yin, Yao::Yang, Yao::Yang]
    } else if id == 6 {
        seq![Yao::Yin, Yao::Yang, Yao::Yin]
    } else if id == 7 {
        seq![Yao::Yin, Yao::Yin, Yao::Yang]
    } else {
        seq![Yao::Yin, Yao::Yin, Yao::Yin]
    }
}

/// Chinese name of the trigram with identity `id`.
pub open spec fn trigram_name(id: u8) -> Seq<char> {
    if id == 1 {
        "乾"@
    } else if id == 2 {
        "兑"@
    } else if id == 3 {
        "离"@
    } else if id == 4 {
        "震"@
    } else if id == 5 {
        "巽"@
    } else if id == 6 {
        "坎"@
    } else if id == 7 {
        "艮"@
    } else {
        "坤"@
    }
}

/// Unicode glyph of the trigram with identity `id`.
pub open spec fn trigram_symbol(id: u8) -> Seq<char> {
    if id == 1 {
        "☰"@
    } else if id == 2 {
        "☱"@
    } else if id == 3 {
        "☲"@
    } else if id == 4 {
        "☳"@
    } else if id == 5 {
        "☴"@
    } else if id == 6 {
        "☵"@
    } else if id == 7 {
        "☶"@
    } else {
        "☷"@
    }
}

impl Trigram {
    /// This value is the catalog entry for identity `id`.
    pub open spec fn is_trigram(&self, id: u8) -> bool {
        &&& self.index == id
        &&& self.name@ == trigram_name(id)
        &&& self.symbol@ == trigram_symbol(id)
        &&& self.lines@ == trigram_lines(id)
    }
}

/// The trigram with the given identity; an index outside 1..=8 yields Kun.
pub fn trigram_by_index(i: u8) -> (r: Trigram)
    ensures
        r.is_trigram(canonical_identity(i)),
{
    let r = match i {
        1 => Trigram { index: 1, name: "乾", symbol: "☰", lines: [Yao::Yang, Yao::Yang, Yao::Yang] },
        2 => Trigram { index: 2, name: "兑", symbol: "☱", lines: [Yao::Yang, Yao::Yang, Yao::Yin] },
        3 => Trigram { index: 3, name: "离", symbol: "☲", lines: [Yao::Yang, Yao::Yin, Yao::Yang] },
        4 => Trigram { index: 4, name: "震", symbol: "☳", lines: [Yao::Yang, Yao::Yin, Yao::Yin] },
        5 => Trigram { index: 5, name: "巽", symbol: "☴", lines: [Yao::Yin, Yao::Yang, Yao::Yang] },
        6 => Trigram { index: 6, name: "坎", symbol: "☵", lines: [Yao::Yin, Yao::Yang, Yao::Yin] },
        7 => Trigram { index: 7, name: "艮", symbol: "☶", lines: [Yao::Yin, Yao::Yin, Yao::Yang] },
        _ => Trigram { index: 8, name: "坤", symbol: "☷", lines: [Yao::Yin, Yao::Yin, Yao::Yin] },
    };
    assert(r.lines@ =~= trigram_lines(canonical_identity(i)));
    r
}

/// Reading of a three-line figure as a number, bottom line as the high bit.
pub open spec fn line_code(s: Seq<Yao>) -> int {
    (if s[0] == Yao::Yang { 4int } else { 0 }) + (if s[1] == Yao::Yang { 2int } else { 0 }) + (
    if s[2] == Yao::Yang { 1int } else { 0 })
}

/// Each identity from 1 to 8 gives a trigram of exactly three lines that
/// carries that identity, and two different identities never give the same
/// lines.
pub proof fn lemma_trigrams_distinct(i: u8, j: u8)
    requires
        1 <= i <= 8,
        1 <= j <= 8,
        i != j,
    ensures
        canonical_identity(i) == i,
        trigram_lines(i).len() == 3,
        trigram_lines(i) != trigram_lines(j),
{
    assert(line_code(trigram_lines(i)) == 8 - i);
    assert(line_code(trigram_lines(j)) == 8 - j);
}

} // verus!
