use std::collections::HashMap;
use vstd::prelude::*;

use crate::trigram::Trigram;

verus! {

/// The texts of one hexagram: name, glyph, judgment (gua ci), the six line
/// texts from the bottom line up, and three commentaries.
#[derive(Debug)]
pub struct HexagramData {
    pub name: String,
    pub symbol: String,
    pub gua_ci: String,
    pub yao_ci: [String; 6],
    pub yi_zhuan: String,
    pub xi_ci_zhuan: String,
    pub xiang_zhuan: String,
}

/// The texts of a hexagram as character sequences.
pub struct HexagramView {
    pub name: Seq<char>,
    pub symbol: Seq<char>,
    pub gua_ci: Seq<char>,
    pub yao_ci: Seq<Seq<char>>,
    pub yi_zhuan: Seq<char>,
    pub xi_ci_zhuan: Seq<char>,
    pub xiang_zhuan: Seq<char>,
}

impl View for HexagramData {
    type V = HexagramView;

    open spec fn view(&self) -> HexagramView {
        HexagramView {
            name: self.name@,
            symbol: self.symbol@,
            gua_ci: self.gua_ci@,
            yao_ci: self.yao_ci@.map_values(|s: String| s@),
            yi_zhuan: self.yi_zhuan@,
            xi_ci_zhuan: self.xi_ci_zhuan@,
            xiang_zhuan: self.xiang_zhuan@,
        }
    }
}

impl HexagramData {
    /// A field-for-field copy of this record.
    pub fn duplicate(&self) -> (r: HexagramData)
        ensures
            r == *self,
    {
        let yao_ci = [
            self.yao_ci[0].clone(),
            self.yao_ci[1].clone(),
            self.yao_ci[2].clone(),
            self.yao_ci[3].clone(),
            self.yao_ci[4].clone(),
            self.yao_ci[5].clone(),
        ];
        assert(yao_ci =~= self.yao_ci);
        HexagramData {
            name: self.name.clone(),
            symbol: self.symbol.clone(),
            gua_ci: self.gua_ci.clone(),
            yao_ci,
            yi_zhuan: self.yi_zhuan.clone(),
            xi_ci_zhuan: self.xi_ci_zhuan.clone(),
            xiang_zhuan: self.xiang_zhuan.clone(),
        }
    }
}

/// The integer under which the pair (upper, lower) is stored.
pub open spec fn table_key(upper: u8, lower: u8) -> u16 {
    (upper as u16 * 256 + lower as u16) as u16
}

/// Hexagram records keyed by (upper trigram identity, lower trigram identity).
/// Keys that hold no record are an ordinary state.
pub struct HexagramTable {
    entries: HashMap<u16, HexagramData>,
}

impl View for HexagramTable {
    type V = Map<(u8, u8), HexagramData>;

    closed spec fn view(&self) -> Map<(u8, u8), HexagramData> {
        Map::new(
            |k: (u8, u8)| self.entries@.contains_key(table_key(k.0, k.1)),
            |k: (u8, u8)| self.entries@[table_key(k.0, k.1)],
        )
    }
}

/// What a lookup of (upper, lower) in `m` gives.
pub open spec fn lookup_spec(m: Map<(u8, u8), HexagramData>, upper: u8, lower: u8) -> Option<
    HexagramData,
> {
    if m.contains_key((upper, lower)) {
        Some(m[(upper, lower)])
    } else {
        None
    }
}

fn key_of(upper: u8, lower: u8) -> (r: u16)
    ensures
        r == table_key(upper, lower),
{
    upper as u16 * 256 + lower as u16
}

impl HexagramTable {
    /// A table with no records.
    pub fn new() -> (r: HexagramTable)
        ensures
            r@ == Map::<(u8, u8), HexagramData>::empty(),
    {
        let r = HexagramTable { entries: HashMap::new() };
        assert(r@ =~= Map::<(u8, u8), HexagramData>::empty());
        r
    }

    /// Stores `data` under (upper, lower), replacing any earlier record there.
    pub fn insert(&mut self, upper: u8, lower: u8, data: HexagramData)
        ensures
            final(self)@ == old(self)@.insert((upper, lower), data),
    {
        broadcast use vstd::std_specs::hash::group_hash_axioms;

        let key = key_of(upper, lower);
        self.entries.insert(key, data);
        assert(self@ =~= old(self)@.insert((upper, lower), data));
    }

    /// The record stored under (upper, lower), if any, as a copy.
    pub fn lookup_hexagram(&self, upper: u8, lower: u8) -> (r: Option<HexagramData>)
        ensures
            r == lookup_spec(self@, upper, lower),
    {
        broadcast use vstd::std_specs::hash::group_hash_axioms;

        let key = key_of(upper, lower);
        match self.entries.get(&key) {
            Some(h) => Some(h.duplicate()),
            None => None,
        }
    }
}

/// The records that the shipped catalog holds: the four doubled trigrams
/// Qian, Kun, Kan and Li, keyed by (upper, lower).
pub open spec fn catalog_entry(upper: u8, lower: u8) -> Option<HexagramView> {
    if upper == 1 && lower == 1 {
        Some(
            HexagramView {
                name: "乾"@,
                symbol: "䷀"@,
                gua_ci: "元亨利贞。"@,
                yao_ci: seq![
                    "初九：潜龙勿用。"@,
                    "九二：见龙在田，利见大人。"@,
                    "九三：君子终日乾乾，夕惕若，厉无咎。"@,
                    "九四：或跃在渊，无咎。"@,
                    "九五：飞龙在天，利见大人。"@,
                    "上九：亢龙有悔。"@,
                ],
                yi_zhuan: "《彖》：大哉乾元，万物资始，乃统天。"@,
                xi_ci_zhuan: "《系辞》：乾以易知。"@,
                xiang_zhuan: "《象》：天行健，君子以自强不息。"@,
            },
        )
    } else if upper == 8 && lower == 8 {
        Some(
            HexagramView {
                name: "坤"@,
                symbol: "䷁"@,
                gua_ci: "元亨，利牝马之贞。君子有攸往，先迷后得主，利。西南得朋，东北丧朋。安贞吉。"@,
                yao_ci: seq![
                    "初六：履霜，坚冰至。"@,
                    "六二：直方大，不习无不利。"@,
                    "六三：含章可贞。或从王事，无成有终。"@,
                    "六四：括囊；无咎，无誉。"@,
                    "六五：黄裳，元吉。"@,
                    "上六：龙战于野，其血玄黄。"@,
                ],
                yi_zhuan: "《彖》：至哉坤元，万物资生，乃顺承天。"@,
                xi_ci_zhuan: "《系辞》：坤以简能。"@,
                xiang_zhuan: "《象》：地势坤，君子以厚德载物。"@,
            },
        )
    } else if upper == 6 && lower == 6 {
        Some(
            HexagramView {
                name: "坎"@,
                symbol: "䷜"@,
                gua_ci: "习坎，有孚，维心亨，行有尚。"@,
                yao_ci: seq![
                    "初六：习坎，入于坎窞，凶。"@,
                    "九二：坎有险，求小得。"@,
                    "六三：来之坎坎，险且枕，入于坎窞，勿用。"@,
                    "六四：樽酒簋贰，用缶，纳约自牖，终无咎。"@,
                    "九五：坎不盈，祗既平，无咎。"@,
                    "上六：系用徽纆，寘于丛棘，三岁不得，凶。"@,
                ],
                yi_zhuan: "《彖》：习坎，重险也。"@,
                xi_ci_zhuan: "《系辞》：坎，陷也。"@,
                xiang_zhuan: "《象》：水洊至，习坎。君子以常德行，习教事。"@,
            },
        )
    } else if upper == 3 && lower == 3 {
        Some(
            HexagramView {
                name: "离"@,
                symbol: "䷝"@,
                gua_ci: "利贞，亨。畜牝牛，吉。"@,
                yao_ci: seq![
                    "初九：履错然，敬之无咎。"@,
                    "六二：黄离，元吉。"@,
                    "九三：日昃之离，不鼓缶而歌，则大耋之嗟，凶。"@,
                    "九四：突如其来如，焚如，死如，弃如。"@,
                    "六五：出涕沱若，戚嗟若，吉。"@,
                    "上九：王用出征，有嘉折首，获匪其丑，无咎。"@,
                ],
                yi_zhuan: "《彖》：离，丽也；日月丽乎天，百谷草木丽乎土。"@,
                xi_ci_zhuan: "《系辞》：离，附也。"@,
                xiang_zhuan: "《象》：明两作，离。大人以继明照于四方。"@,
            },
        )
    } else {
        None
    }
}

/// The view of an optional record.
pub open spec fn option_view(o: Option<HexagramData>) -> Option<HexagramView> {
    match o {
        Some(h) => Some(h@),
        None => None,
    }
}

/// A record stored under (upper, lower) is what a lookup there returns,
/// unchanged.
pub proof fn lemma_lookup_returns_stored(table: HexagramTable, upper: u8, lower: u8)
    requires
        table@.contains_key((upper, lower)),
    ensures
        lookup_spec(table@, upper, lower) == Some(table@[(upper, lower)]),
{
}

/// Two lookups of one key in one table give records equal field for field.
pub proof fn lemma_lookup_idempotent(
    table: HexagramTable,
    upper: u8,
    lower: u8,
    first: Option<HexagramData>,
    second: Option<HexagramData>,
)
    requires
        first == lookup_spec(table@, upper, lower),
        second == lookup_spec(table@, upper, lower),
    ensures
        first == second,
        option_view(first) == option_view(second),
{
}

/// Builds the catalog of hexagram texts.
pub fn build_hexagram_table() -> (r: HexagramTable)
    ensures
        forall|upper: u8, lower: u8|
            option_view(#[trigger] lookup_spec(r@, upper, lower)) == catalog_entry(upper, lower),
{
    let mut map = HexagramTable::new();


    let yao_ci = [
        "初九：潜龙勿用。".to_owned(),
        "九二：见龙在田，利见大人。".to_owned(),
        "九三：君子终日乾乾，夕惕若，厉无咎。".to_owned(),
        "九四：或跃在渊，无咎。".to_owned(),
        "九五：飞龙在天，利见大人。".to_owned(),
        "上九：亢龙有悔。".to_owned(),
    ];
    let h = HexagramData {
        name: "乾".to_owned(),
        symbol: "䷀".to_owned(),
        gua_ci: "元亨利贞。".to_owned(),
        yao_ci,
        yi_zhuan: "《彖》：大哉乾元，万物资始，乃统天。".to_owned(),
        xi_ci_zhuan: "《系辞》：乾以易知。".to_owned(),
        xiang_zhuan: "《象》：天行健，君子以自强不息。".to_owned(),
    };
    assert(h@.yao_ci =~= catalog_entry(1, 1)->0.yao_ci);
    let ghost v0 = h@;
    map.insert(1, 1, h);


    let yao_ci = [
        "初六：履霜，坚冰至。".to_owned(),
        "六二：直方大，不习无不利。".to_owned(),
        "六三：含章可贞。或从王事，无成有终。".to_owned(),
        "六四：括囊；无咎，无誉。".to_owned(),
        "六五：黄裳，元吉。".to_owned(),
        "上六：龙战于野，其血玄黄。".to_owned(),
    ];
    let h = HexagramData {
        name: "坤".to_owned(),
        symbol: "䷁".to_owned(),
        gua_ci: "元亨，利牝马之贞。君子有攸往，先迷后得主，利。西南得朋，东北丧朋。安贞吉。".to_owned(),
        yao_ci,
        yi_zhuan: "《彖》：至哉坤元，万物资生，乃顺承天。".to_owned(),
        xi_ci_zhuan: "《系辞》：坤以简能。".to_owned(),
        xiang_zhuan: "《象》：地势坤，君子以厚德载物。".to_owned(),
    };
    assert(h@.yao_ci =~= catalog_entry(8, 8)->0.yao_ci);
    let ghost v1 = h@;
    map.insert(8, 8, h);


    let yao_ci = [
        "初六：习坎，入于坎窞，凶。".to_owned(),
        "九二：坎有险，求小得。".to_owned(),
        "六三：来之坎坎，险且枕，入于坎窞，勿用。".to_owned(),
        "六四：樽酒簋贰，用缶，纳约自牖，终无咎。".to_owned(),
        "九五：坎不盈，祗既平，无咎。".to_owned(),
        "上六：系用徽纆，寘于丛棘，三岁不得，凶。".to_owned(),
    ];
    let h = HexagramData {
        name: "坎".to_owned(),
        symbol: "䷜".to_owned(),
        gua_ci: "习坎，有孚，维心亨，行有尚。".to_owned(),
        yao_ci,
        yi_zhuan: "《彖》：习坎，重险也。".to_owned(),
        xi_ci_zhuan: "《系辞》：坎，陷也。".to_owned(),
        xiang_zhuan: "《象》：水洊至，习坎。君子以常德行，习教事。".to_owned(),
    };
    assert(h@.yao_ci =~= catalog_entry(6, 6)->0.yao_ci);
    let ghost v2 = h@;
    map.insert(6, 6, h);


    let yao_ci = [
        "初九：履错然，敬之无咎。".to_owned(),
        "六二：黄离，元吉。".to_owned(),
        "九三：日昃之离，不鼓缶而歌，则大耋之嗟，凶。".to_owned(),
        "九四：突如其来如，焚如，死如，弃如。".to_owned(),
        "六五：出涕沱若，戚嗟若，吉。".to_owned(),
        "上九：王用出征，有嘉折首，获匪其丑，无咎。".to_owned(),
    ];
    let h = HexagramData {
        name: "离".to_owned(),
        symbol: "䷝".to_owned(),
        gua_ci: "利贞，亨。畜牝牛，吉。".to_owned(),
        yao_ci,
        yi_zhuan: "《彖》：离，丽也；日月丽乎天，百谷草木丽乎土。".to_owned(),
        xi_ci_zhuan: "《系辞》：离，附也。".to_owned(),
        xiang_zhuan: "《象》：明两作，离。大人以继明照于四方。".to_owned(),
    };
    assert(h@.yao_ci =~= catalog_entry(3, 3)->0.yao_ci);
    let ghost v3 = h@;
    map.insert(3, 3, h);


    assert forall|upper: u8, lower: u8|
        option_view(#[trigger] lookup_spec(map@, upper, lower)) == catalog_entry(upper, lower) by {
        assert(v0 == catalog_entry(1, 1)->0);
        assert(v1 == catalog_entry(8, 8)->0);
        assert(v2 == catalog_entry(6, 6)->0);
        assert(v3 == catalog_entry(3, 3)->0);
    }
    map
}

/// Placeholder record for a pair that the catalog lacks: the name reads
/// "upper above, lower below", the glyph is the upper glyph then the lower
/// one, and every text says that it is still to be supplied, each line text
/// labelled with its position.
pub open spec fn fallback_view(lower: Trigram, upper: Trigram) -> HexagramView {
    HexagramView {
        name: "上"@ + upper.name@ + "下"@ + lower.name@,
        symbol: upper.symbol@ + lower.symbol@,
        gua_ci: "该卦卦辞待补全。"@,
        yao_ci: seq![
            "初爻爻辞待补全。"@,
            "二爻爻辞待补全。"@,
            "三爻爻辞待补全。"@,
            "四爻爻辞待补全。"@,
            "五爻爻辞待补全。"@,
            "上爻爻辞待补全。"@,
        ],
        yi_zhuan: "易传内容待补全。"@,
        xi_ci_zhuan: "系辞传内容待补全。"@,
        xiang_zhuan: "象传内容待补全。"@,
    }
}

/// Builds the placeholder record for the pair (upper, lower).
pub fn fallback_hexagram(lower: Trigram, upper: Trigram) -> (r: HexagramData)
    ensures
        r@ == fallback_view(lower, upper),
{
    let name = "上".to_owned().concat(upper.name).concat("下").concat(lower.name);
    let symbol = upper.symbol.to_owned().concat(lower.symbol);
    let yao_ci = [
        "初爻爻辞待补全。".to_owned(),
        "二爻爻辞待补全。".to_owned(),
        "三爻爻辞待补全。".to_owned(),
        "四爻爻辞待补全。".to_owned(),
        "五爻爻辞待补全。".to_owned(),
        "上爻爻辞待补全。".to_owned(),
    ];
    let r = HexagramData {
        name,
        symbol,
        gua_ci: "该卦卦辞待补全。".to_owned(),
        yao_ci,
        yi_zhuan: "易传内容待补全。".to_owned(),
        xi_ci_zhuan: "系辞传内容待补全。".to_owned(),
        xiang_zhuan: "象传内容待补全。".to_owned(),
    };
    assert(r@.yao_ci =~= fallback_view(lower, upper).yao_ci);
    r
}

} // verus!
