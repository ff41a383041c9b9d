use zen_of_changes::divination::{generate_result, result_for_draw};
use zen_of_changes::hexagram::{build_hexagram_table, fallback_hexagram, HexagramData, HexagramTable};
use zen_of_changes::trigram::{trigram_by_index, Yao};
use zen_of_changes::trigram::Yao::{Yang, Yin};

fn same_record(a: &HexagramData, b: &HexagramData) -> bool {
    a.name == b.name
        && a.symbol == b.symbol
        && a.gua_ci == b.gua_ci
        && a.yao_ci == b.yao_ci
        && a.yi_zhuan == b.yi_zhuan
        && a.xi_ci_zhuan == b.xi_ci_zhuan
        && a.xiang_zhuan == b.xiang_zhuan
}

#[test]
fn trigrams_have_identity_and_distinct_lines() {
    let mut seen: Vec<[Yao; 3]> = Vec::new();
    for id in 1u8..=8 {
        let t = trigram_by_index(id);
        assert_eq!(t.index, id);
        assert_eq!(t.lines.len(), 3);
        assert!(!seen.contains(&t.lines));
        seen.push(t.lines);
    }
    assert_eq!(seen.len(), 8);
}

#[test]
fn trigram_table_matches_traditional_order() {
    let expected = [
        ("乾", "☰", [Yang, Yang, Yang]),
        ("兑", "☱", [Yang, Yang, Yin]),
        ("离", "☲", [Yang, Yin, Yang]),
        ("震", "☳", [Yang, Yin, Yin]),
        ("巽", "☴", [Yin, Yang, Yang]),
        ("坎", "☵", [Yin, Yang, Yin]),
        ("艮", "☶", [Yin, Yin, Yang]),
        ("坤", "☷", [Yin, Yin, Yin]),
    ];
    for (i, (name, symbol, lines)) in expected.iter().enumerate() {
        let t = trigram_by_index(i as u8 + 1);
        assert_eq!(t.name, *name);
        assert_eq!(t.symbol, *symbol);
        assert_eq!(t.lines, *lines);
    }
}

#[test]
fn out_of_range_index_gives_kun() {
    assert_eq!(trigram_by_index(0).index, 8);
    assert_eq!(trigram_by_index(9).name, "坤");
    assert_eq!(trigram_by_index(255).lines, [Yao::Yin; 3]);
}

#[test]
fn catalog_holds_the_four_doubled_trigrams() {
    let table = build_hexagram_table();
    for upper in 1u8..=8 {
        for lower in 1u8..=8 {
            let present = upper == lower && matches!(upper, 1 | 3 | 6 | 8);
            assert_eq!(table.lookup_hexagram(upper, lower).is_some(), present);
        }
    }
    assert_eq!(table.lookup_hexagram(3, 3).unwrap().name, "离");
    assert_eq!(table.lookup_hexagram(6, 6).unwrap().symbol, "䷜");
}

#[test]
fn repeated_lookup_returns_same_record() {
    let table = build_hexagram_table();
    let a = table.lookup_hexagram(6, 6).unwrap();
    let b = table.lookup_hexagram(6, 6).unwrap();
    assert!(same_record(&a, &b));
    assert!(table.lookup_hexagram(2, 5).is_none());
    assert!(table.lookup_hexagram(2, 5).is_none());
}

#[test]
fn table_insert_then_lookup() {
    let mut table = HexagramTable::new();
    assert!(table.lookup_hexagram(5, 2).is_none());
    let record = fallback_hexagram(trigram_by_index(2), trigram_by_index(5));
    let copy = record.duplicate();
    table.insert(5, 2, record);
    assert!(same_record(&table.lookup_hexagram(5, 2).unwrap(), &copy));
    assert!(table.lookup_hexagram(2, 5).is_none());
}

#[test]
fn qian_over_qian() {
    let table = build_hexagram_table();
    let r = result_for_draw(&table, 1, 1, 4);
    assert_eq!(r.lower.name, "乾");
    assert_eq!(r.upper.name, "乾");
    assert_eq!(r.lower.lines, [Yao::Yang; 3]);
    assert_eq!(r.lines, [Yao::Yang; 6]);
    assert_eq!(r.moving_line, 4);
    assert_eq!(r.hexagram.name, "乾");
    assert_eq!(r.hexagram.symbol, "䷀");
    assert_eq!(r.hexagram.gua_ci, "元亨利贞。");
    assert_eq!(r.hexagram.yao_ci[0], "初九：潜龙勿用。");
    assert_eq!(r.hexagram.xiang_zhuan, "《象》：天行健，君子以自强不息。");
}

#[test]
fn kun_over_kun() {
    let table = build_hexagram_table();
    let r = result_for_draw(&table, 8, 8, 1);
    assert_eq!(r.lines, [Yao::Yin; 6]);
    assert_eq!(r.hexagram.name, "坤");
    assert!(r.hexagram.gua_ci.starts_with("元亨，利牝马之贞。"));
    assert_eq!(r.hexagram.yao_ci[5], "上六：龙战于野，其血玄黄。");
}

#[test]
fn missing_pair_uses_placeholder() {
    let table = build_hexagram_table();
    let r = result_for_draw(&table, 2, 5, 6);
    assert_eq!(r.hexagram.name, "上巽下兑");
    assert_eq!(r.hexagram.symbol, "☴☱");
    assert_eq!(r.hexagram.gua_ci, "该卦卦辞待补全。");
    assert_eq!(r.hexagram.yao_ci[0], "初爻爻辞待补全。");
    assert_eq!(r.hexagram.yao_ci[5], "上爻爻辞待补全。");
    for i in 0..6 {
        for j in 0..6 {
            if i != j {
                assert_ne!(r.hexagram.yao_ci[i], r.hexagram.yao_ci[j]);
            }
        }
    }
}

#[test]
fn key_order_is_upper_then_lower() {
    let mut table = HexagramTable::new();
    let record = fallback_hexagram(trigram_by_index(1), trigram_by_index(1));
    table.insert(7, 4, record);
    let hit = result_for_draw(&table, 4, 7, 2);
    assert_eq!(hit.hexagram.name, "上乾下乾");
    let miss = result_for_draw(&table, 7, 4, 2);
    assert_eq!(miss.hexagram.name, "上震下艮");
}

#[test]
fn lines_stack_lower_below_upper() {
    let table = build_hexagram_table();
    let r = result_for_draw(&table, 4, 7, 3);
    assert_eq!(r.lines[0..3], trigram_by_index(4).lines);
    assert_eq!(r.lines[3..6], trigram_by_index(7).lines);
    assert_eq!(
        r.lines,
        [Yao::Yang, Yao::Yin, Yao::Yin, Yao::Yin, Yao::Yin, Yao::Yang]
    );
}

#[test]
fn moving_line_changes_nothing_else() {
    let table = build_hexagram_table();
    let a = result_for_draw(&table, 3, 6, 1);
    let b = result_for_draw(&table, 3, 6, 6);
    assert_eq!(a.lines, b.lines);
    assert!(same_record(&a.hexagram, &b.hexagram));
    assert_eq!(a.hexagram.name, "上坎下离");
}

#[test]
fn generated_results_stay_in_range() {
    let table = build_hexagram_table();
    for _ in 0..500 {
        let r = generate_result(&table);
        assert!((1..=8).contains(&r.lower.index));
        assert!((1..=8).contains(&r.upper.index));
        assert!((1..=6).contains(&r.moving_line));
        let again = result_for_draw(&table, r.lower.index, r.upper.index, r.moving_line);
        assert_eq!(r.lines, again.lines);
        assert!(same_record(&r.hexagram, &again.hexagram));
    }
}

#[test]
fn generated_results_vary() {
    let table = build_hexagram_table();
    let mut lowers = [false; 9];
    let mut moving = [false; 7];
    for _ in 0..2000 {
        let r = generate_result(&table);
        lowers[r.lower.index as usize] = true;
        moving[r.moving_line as usize] = true;
    }
    assert!(lowers[1..].iter().all(|b| *b));
    assert!(moving[1..].iter().all(|b| *b));
}
