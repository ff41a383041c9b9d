use rand::Rng;
use vstd::prelude::*;

use crate::hexagram::{
    fallback_hexagram, fallback_view, lookup_spec, HexagramData, HexagramTable,
};
use crate::trigram::{trigram_by_index, trigram_lines, trigram_name, trigram_symbol, Trigram, Yao};

verus! {

/// One reading: the two trigrams drawn, the moving line (1 to 6), the six
/// lines from the bottom up, and the hexagram texts that go with them.
#[derive(Debug)]
pub struct DivinationResult {
    pub lower: Trigram,
    pub upper: Trigram,
    pub moving_line: u8,
    pub lines: [Yao; 6],
    pub hexagram: HexagramData,
}

impl DivinationResult {
    /// This result is the reading of lower trigram `lower_id`, upper trigram
    /// `upper_id` and moving line `moving_line` against the catalog `m`: the
    /// lower trigram's lines come first, and the catalog is consulted under
    /// (upper, lower), with the placeholder record where it holds nothing.
    pub open spec fn is_reading_of(
        &self,
        m: Map<(u8, u8), HexagramData>,
        lower_id: u8,
        upper_id: u8,
        moving_line: u8,
    ) -> bool {
        &&& self.lower.is_trigram(lower_id)
        &&& self.upper.is_trigram(upper_id)
        &&& self.moving_line == moving_line
        &&& self.lines@ == trigram_lines(lower_id) + trigram_lines(upper_id)
        &&& match lookup_spec(m, upper_id, lower_id) {
            Some(h) => self.hexagram == h,
            None => self.hexagram@ == fallback_view(self.lower, self.upper),
        }
    }
}

/// Composes the reading for the drawn numbers `lower_idx`, `upper_idx`
/// (trigram identities) and `moving_line`.
pub fn result_for_draw(table: &HexagramTable, lower_idx: u8, upper_idx: u8, moving_line: u8) -> (r:
    DivinationResult)
    requires
        1 <= lower_idx <= 8,
        1 <= upper_idx <= 8,
        1 <= moving_line <= 6,
    ensures
        r.is_reading_of(table@, lower_idx, upper_idx, moving_line),
{
    let lower = trigram_by_index(lower_idx);
    let upper = trigram_by_index(upper_idx);
    let lines = [
        lower.lines[0],
        lower.lines[1],
        lower.lines[2],
        upper.lines[0],
        upper.lines[1],
        upper.lines[2],
    ];
    assert(lines@ =~= lower.lines@ + upper.lines@);
    let hexagram = match table.lookup_hexagram(upper_idx, lower_idx) {
        Some(h) => h,
        None => fallback_hexagram(lower, upper),
    };
    DivinationResult { lower, upper, moving_line, lines, hexagram }
}

/// Relies on rand::thread_rng and rand::Rng::gen_range (rand 0.8): a value of
/// the inclusive range `lo..=hi`; gen_range panics only on an empty range.
#[verifier::external_body]
fn draw_inclusive(lo: u8, hi: u8) -> (r: u8)
    requires
        lo <= hi,
    ensures
        lo <= r <= hi,
{
    rand::thread_rng().gen_range(lo..=hi)
}

/// Draws a lower trigram (1 to 8), an upper trigram (1 to 8) and a moving
/// line (1 to 6) independently, and composes the reading for them.
pub fn generate_result(table: &HexagramTable) -> (r: DivinationResult)
    ensures
        1 <= r.lower.index <= 8,
        1 <= r.upper.index <= 8,
        1 <= r.moving_line <= 6,
        r.is_reading_of(table@, r.lower.index, r.upper.index, r.moving_line),
{
    let lower_idx = draw_inclusive(1, 8);
    let upper_idx = draw_inclusive(1, 8);
    let moving_line = draw_inclusive(1, 6);
    result_for_draw(table, lower_idx, upper_idx, moving_line)
}

/// The six lines of a reading are the lower trigram's three lines followed by
/// the upper trigram's three, each being the catalog lines of its identity.
pub proof fn lemma_reading_composition(
    r: DivinationResult,
    m: Map<(u8, u8), HexagramData>,
    lower_id: u8,
    upper_id: u8,
    moving_line: u8,
)
    requires
        r.is_reading_of(m, lower_id, upper_id, moving_line),
    ensures
        r.lines@.subrange(0, 3) == r.lower.lines@,
        r.lines@.subrange(3, 6) == r.upper.lines@,
        r.lower.lines@ == trigram_lines(lower_id),
        r.upper.lines@ == trigram_lines(upper_id),
{
    assert(r.lines@.subrange(0, 3) =~= r.lower.lines@);
    assert(r.lines@.subrange(3, 6) =~= r.upper.lines@);
}

/// The moving line decides nothing but itself: two readings of the same
/// trigrams against the same catalog have the same lines and the same texts,
/// whatever moving lines they carry.
pub proof fn lemma_moving_line_independent(
    r1: DivinationResult,
    r2: DivinationResult,
    m: Map<(u8, u8), HexagramData>,
    lower_id: u8,
    upper_id: u8,
    moving1: u8,
    moving2: u8,
)
    requires
        r1.is_reading_of(m, lower_id, upper_id, moving1),
        r2.is_reading_of(m, lower_id, upper_id, moving2),
    ensures
        r1.lines == r2.lines,
        r1.hexagram@ == r2.hexagram@,
{
    assert(r1.lines =~= r2.lines);
}

/// Where the catalog holds nothing under (upper, lower), the placeholder's
/// name and glyph depend on the two identities alone, not on the moving line
/// nor on the rest of the catalog, and its six line texts differ from one
/// another.
pub proof fn lemma_fallback_determined(
    r1: DivinationResult,
    r2: DivinationResult,
    m1: Map<(u8, u8), HexagramData>,
    m2: Map<(u8, u8), HexagramData>,
    lower_id: u8,
    upper_id: u8,
    moving1: u8,
    moving2: u8,
)
    requires
        r1.is_reading_of(m1, lower_id, upper_id, moving1),
        r2.is_reading_of(m2, lower_id, upper_id, moving2),
        !m1.contains_key((upper_id, lower_id)),
        !m2.contains_key((upper_id, lower_id)),
    ensures
        r1.hexagram@.name == "上"@ + trigram_name(upper_id) + "下"@ + trigram_name(lower_id),
        r1.hexagram@.symbol == trigram_symbol(upper_id) + trigram_symbol(lower_id),
        r1.hexagram@.name == r2.hexagram@.name,
        r1.hexagram@.symbol == r2.hexagram@.symbol,
        r1.hexagram@.yao_ci.len() == 6,
        forall|i: int, j: int|
            0 <= i < 6 && 0 <= j < 6 && i != j ==> #[trigger] r1.hexagram@.yao_ci[i]
                != #[trigger] r1.hexagram@.yao_ci[j],
{
    let texts = r1.hexagram@.yao_ci;
    reveal_strlit("初爻爻辞待补全。");
    reveal_strlit("二爻爻辞待补全。");
    reveal_strlit("三爻爻辞待补全。");
    reveal_strlit("四爻爻辞待补全。");
    reveal_strlit("五爻爻辞待补全。");
    reveal_strlit("上爻爻辞待补全。");
    assert forall|i: int, j: int|
        0 <= i < 6 && 0 <= j < 6 && i != j implies #[trigger] texts[i] != #[trigger] texts[j] by {
        assert(texts[i][0] != texts[j][0]);
    }
}

} // verus!
