use ironcalc_patterns::builder::MissingField;
use ironcalc_patterns::calendar::CivilDate;
use ironcalc_patterns::conflict::PatternConflict;
use ironcalc_patterns::date_and_time::{
    fn_date, fn_datedif, fn_day, fn_edate, fn_eomonth, fn_month, fn_today, fn_year,
    from_excel_date, month_shift_fits, ErrorCode, FormulaError,
};
use ironcalc_patterns::error::PatternError;
use ironcalc_patterns::extract::{Function, Node};
use ironcalc_patterns::pattern_key::{
    CellReferenceIndex, CriteriaPair, CriteriaValue, LookupValue, NumberKey, PatternKey,
    TableRange,
};
use ironcalc_patterns::registry::{RegistryStats, SubstitutionRegistry};

fn bits(x: f64) -> u64 {
    x.to_bits()
}

fn sumifs(column: i32, value: &str) -> PatternKey {
    PatternKey::sumifs()
        .sum_column(column)
        .criteria_string(1, value)
        .build()
        .unwrap()
}

fn table(start_row: i32, end_row: i32) -> TableRange {
    TableRange {
        sheet: Some("T".to_string()),
        start_row,
        start_column: 1,
        end_row,
        end_column: 3,
    }
}

fn vlookup(start_row: i32, end_row: i32) -> PatternKey {
    PatternKey::Vlookup {
        sheet: None,
        lookup_value: LookupValue::String("k".to_string()),
        table_range: table(start_row, end_row),
        column_index: 2,
        exact_match: true,
    }
}

// ----------------------------------------------------------------------------
// Registry
// ----------------------------------------------------------------------------

#[test]
fn lookup_gives_back_the_last_addition_and_leaves_others() {
    let mut registry = SubstitutionRegistry::new();
    let a = sumifs(2, "a");
    let b = sumifs(3, "b");
    registry.add_substitution(b.clone(), bits(7.0));
    registry.add_substitution(a.clone(), bits(1.5));
    assert_eq!(registry.get_substitution(&a), Some(bits(1.5)));
    assert_eq!(registry.get_substitution(&b), Some(bits(7.0)));
    assert_eq!(registry.add_substitution(a.clone(), bits(2.5)), Some(bits(1.5)));
    assert_eq!(registry.get_substitution(&a), Some(bits(2.5)));
    assert_eq!(registry.get_substitution(&b), Some(bits(7.0)));
    assert_eq!(registry.len(), 2);
}

#[test]
fn remove_undoes_add() {
    let mut registry = SubstitutionRegistry::new();
    let a = sumifs(2, "a");
    let b = sumifs(3, "b");
    registry.add_substitution(b.clone(), bits(7.0));
    registry.add_substitution(a.clone(), bits(1.5));
    assert_eq!(registry.remove_substitution(&a), Some(bits(1.5)));
    assert_eq!(registry.len(), 1);
    assert!(!registry.contains_pattern(&a));
    assert!(registry.contains_pattern(&b));
    assert_eq!(registry.remove_substitution(&a), None);
    assert_eq!(registry.stats().removals, 1);
}

#[test]
fn inactive_registry_answers_nothing_and_keeps_data() {
    let mut registry = SubstitutionRegistry::new();
    let a = sumifs(2, "a");
    registry.add_substitution(a.clone(), bits(4.0));
    registry.set_active(false);
    assert_eq!(registry.get_substitution(&a), None);
    assert_eq!(registry.get_substitution(&sumifs(9, "z")), None);
    assert_eq!(registry.value_of(&a), Some(bits(4.0)));
    assert_eq!(registry.stats().inactive_lookups, 2);
    assert_eq!(registry.stats().failed_lookups, 0);
    registry.set_active(true);
    assert_eq!(registry.get_substitution(&a), Some(bits(4.0)));
}

#[test]
fn each_lookup_is_counted_once() {
    let mut registry = SubstitutionRegistry::new();
    let a = sumifs(2, "a");
    registry.add_substitution(a.clone(), bits(4.0));
    registry.get_substitution(&a);
    registry.get_substitution(&sumifs(5, "missing"));
    registry.set_active(false);
    registry.get_substitution(&a);
    let stats = registry.stats();
    assert_eq!(stats.successful_lookups, 1);
    assert_eq!(stats.failed_lookups, 1);
    assert_eq!(stats.inactive_lookups, 1);
    assert_eq!(stats.total_lookups(), 3);
    assert_eq!(stats.additions, 1);
}

#[test]
fn net_changes_of_add_then_remove_is_zero() {
    let mut registry = SubstitutionRegistry::new();
    let a = sumifs(2, "a");
    registry.add_substitution(a.clone(), bits(4.0));
    registry.remove_substitution(&a);
    assert_eq!(registry.stats().net_changes(), 0);
    let stats = RegistryStats {
        successful_lookups: 0,
        failed_lookups: 0,
        inactive_lookups: 0,
        additions: 3,
        removals: 10,
    };
    assert_eq!(stats.net_changes(), -7);
}

#[test]
fn bulk_addition_keeps_the_last_value_of_a_repeated_pattern() {
    let mut registry = SubstitutionRegistry::new();
    let a = sumifs(2, "a");
    let b = sumifs(3, "b");
    let count = registry.add_bulk(vec![
        (a.clone(), bits(1.0)),
        (b.clone(), bits(2.0)),
        (a.clone(), bits(3.0)),
    ]);
    assert_eq!(count, 3);
    assert_eq!(registry.len(), 2);
    assert_eq!(registry.value_of(&a), Some(bits(3.0)));
    assert_eq!(registry.stats().additions, 3);
    assert_eq!(registry.patterns(), vec![a.clone(), b.clone()]);
    assert_eq!(registry.values(), vec![bits(3.0), bits(2.0)]);
    assert_eq!(registry.entries(), vec![(a, bits(3.0)), (b, bits(2.0))]);
}

#[test]
fn clear_counts_removals() {
    let mut registry = SubstitutionRegistry::new();
    registry.add_substitution(sumifs(2, "a"), bits(1.0));
    registry.add_substitution(sumifs(3, "b"), bits(2.0));
    registry.clear();
    assert!(registry.is_empty());
    assert_eq!(registry.stats().removals, 2);
}

#[test]
fn memory_estimate_counts_capacity_and_entries() {
    let registry = SubstitutionRegistry::with_capacity(100);
    assert!(registry.memory_usage_estimate() >= 1600);
    let mut registry = SubstitutionRegistry::new();
    assert_eq!(registry.memory_usage_estimate(), 0);
    registry.add_substitution(sumifs(2, "a"), bits(1.0));
    assert!(registry.memory_usage_estimate() >= 16 + 108);
}

// ----------------------------------------------------------------------------
// Conflicts
// ----------------------------------------------------------------------------

#[test]
fn different_kinds_never_conflict() {
    let registry = SubstitutionRegistry::new();
    let s = sumifs(2, "a");
    let c = PatternKey::countifs().criteria_string(1, "a").build().unwrap();
    let v = vlookup(1, 10);
    assert!(registry.detect_pattern_conflict(&s, bits(1.0), &c, bits(1.0), true).is_none());
    assert!(registry.detect_pattern_conflict(&c, bits(1.0), &v, bits(1.0), true).is_none());
    assert!(registry.detect_pattern_conflict(&v, bits(1.0), &s, bits(1.0), false).is_none());
}

#[test]
fn same_pattern_always_conflicts() {
    let registry = SubstitutionRegistry::new();
    let s = sumifs(2, "a");
    assert_eq!(
        registry.detect_pattern_conflict(&s, bits(1.0), &s, bits(1.0), true),
        Some(PatternConflict::ExactDuplicate { pattern: s.clone(), value: bits(1.0) })
    );
    assert_eq!(
        registry.detect_pattern_conflict(&s, bits(1.0), &s, bits(2.0), false),
        Some(PatternConflict::SamePatternDifferentValues {
            pattern: s.clone(),
            value1: bits(1.0),
            value2: bits(2.0),
        })
    );
}

#[test]
fn conflict_does_not_depend_on_order() {
    let registry = SubstitutionRegistry::new();
    let small = vlookup(1, 10);
    let large = vlookup(1, 20);
    let forward = registry.detect_pattern_conflict(&small, bits(1.0), &large, bits(2.0), false);
    let backward = registry.detect_pattern_conflict(&large, bits(2.0), &small, bits(1.0), false);
    let expected = PatternConflict::SubsetSuperset {
        subset_pattern: small.clone(),
        subset_value: bits(1.0),
        superset_pattern: large.clone(),
        superset_value: bits(2.0),
    };
    assert_eq!(forward, Some(expected.clone()));
    assert_eq!(backward, Some(expected));
    // Overlapping tables of equal size give no conflict either way.
    let shifted = vlookup(11, 20);
    let same_size = vlookup(5, 14);
    assert!(registry.detect_pattern_conflict(&shifted, bits(1.0), &same_size, bits(1.0), false).is_none());
    assert!(registry.detect_pattern_conflict(&same_size, bits(1.0), &shifted, bits(1.0), false).is_none());
}

#[test]
fn overlap_is_symmetric_and_reflexive() {
    let registry = SubstitutionRegistry::new();
    let t1 = table(1, 10);
    let t2 = table(10, 20);
    let t3 = table(11, 20);
    assert!(registry.do_table_ranges_overlap(&t1, &t1));
    assert!(registry.do_table_ranges_overlap(&t1, &t2));
    assert!(registry.do_table_ranges_overlap(&t2, &t1));
    assert!(!registry.do_table_ranges_overlap(&t1, &t3));
    assert!(!registry.do_table_ranges_overlap(&t3, &t1));
}

#[test]
fn criteria_subset_is_strict() {
    let registry = SubstitutionRegistry::new();
    let one = vec![CriteriaPair { column: 1, criteria: CriteriaValue::string("a") }];
    let two = vec![
        CriteriaPair { column: 2, criteria: CriteriaValue::number(bits(3.0)) },
        CriteriaPair { column: 1, criteria: CriteriaValue::string("a") },
    ];
    assert!(!registry.is_criteria_subset(&one, &one));
    assert!(registry.is_criteria_subset(&one, &two));
    assert!(!registry.is_criteria_subset(&two, &one));
}

#[test]
fn conflict_error_message_lists_the_conflicts() {
    let mut registry = SubstitutionRegistry::new();
    let s = sumifs(2, "a");
    registry.add_substitution(s.clone(), bits(1.0));
    let texts = vec![(bits(1.0), format!("{:?}", 1.0f64)), (bits(2.0), format!("{:?}", 2.0f64))];
    let result = registry.add_substitution_with_conflict_check(
        s.clone(),
        bits(2.0),
        ironcalc_patterns::conflict::ConflictResolution::Error,
        false,
        &texts,
    );
    assert_eq!(
        result,
        Err(PatternError::InvalidSheetName {
            name: "Conflicts detected: [SamePatternDifferentValues { pattern: Sumifs { sheet: None, \
                   sum_column: 2, criteria_pairs: [CriteriaPair { column: 1, criteria: \
                   String(\"a\") }] }, value1: 1.0, value2: 2.0 }]"
                .to_string()
        })
    );
    assert_eq!(registry.value_of(&s), Some(bits(1.0)));
    assert_eq!(registry.stats().additions, 1);
}

#[test]
fn conflict_listing_writes_every_part() {
    let pattern = PatternKey::Vlookup {
        sheet: Some("Data \"1\"".to_string()),
        lookup_value: LookupValue::number(bits(2.5)),
        table_range: TableRange {
            sheet: None,
            start_row: 1,
            start_column: 2,
            end_row: 30,
            end_column: 4,
        },
        column_index: 3,
        exact_match: false,
    };
    let cell = PatternKey::Countifs {
        sheet: None,
        criteria_pairs: vec![
            CriteriaPair { column: 1, criteria: CriteriaValue::cell_ref(0, -2, 3) },
            CriteriaPair { column: 2, criteria: CriteriaValue::number(bits(7.0)) },
        ],
    };
    let conflicts = vec![
        PatternConflict::ExactDuplicate { pattern: pattern.clone(), value: bits(0.5) },
        PatternConflict::SubsetSuperset {
            subset_pattern: cell.clone(),
            subset_value: bits(1.0),
            superset_pattern: cell,
            superset_value: bits(3.0),
        },
    ];
    let texts = vec![(bits(2.5), "2.5".to_string()), (bits(0.5), "0.5".to_string()), (bits(1.0), "1.0".to_string())];
    let listing = ironcalc_patterns::listing::conflicts_listing(&conflicts, &texts);
    let expected = format!(
        "[ExactDuplicate {{ pattern: Vlookup {{ sheet: Some({:?}), lookup_value: Number(2.5), \
         table_range: TableRange {{ sheet: None, start_row: 1, start_column: 2, end_row: 30, \
         end_column: 4 }}, column_index: 3, exact_match: false }}, value: 0.5 }}, \
         SubsetSuperset {{ subset_pattern: Countifs {{ sheet: None, criteria_pairs: \
         [CriteriaPair {{ column: 1, criteria: CellReference(CellReferenceIndex {{ sheet: 0, \
         row: -2, column: 3 }}) }}, CriteriaPair {{ column: 2, criteria: Number({}) }}] }}, \
         subset_value: 1.0, superset_pattern: Countifs {{ sheet: None, criteria_pairs: \
         [CriteriaPair {{ column: 1, criteria: CellReference(CellReferenceIndex {{ sheet: 0, \
         row: -2, column: 3 }}) }}, CriteriaPair {{ column: 2, criteria: Number({}) }}] }}, \
         superset_value: {} }}]",
        "Data \"1\"",
        bits(7.0),
        bits(7.0),
        bits(3.0)
    );
    assert_eq!(listing, expected);
    assert_eq!(ironcalc_patterns::listing::conflicts_listing(&Vec::new(), &texts), "[]");
}

#[test]
fn overwrite_removes_every_conflicting_pattern() {
    let mut registry = SubstitutionRegistry::new();
    let large = vlookup(1, 20);
    let other = sumifs(2, "a");
    registry.add_substitution(large.clone(), bits(1.0));
    registry.add_substitution(other.clone(), bits(5.0));
    let small = vlookup(1, 10);
    let result = registry
        .add_substitution_with_conflict_check(
            small.clone(),
            bits(2.0),
            ironcalc_patterns::conflict::ConflictResolution::OverwriteExisting,
            false,
            &Vec::new(),
        )
        .unwrap();
    assert_eq!(result.len(), 1);
    assert!(!registry.contains_pattern(&large));
    assert_eq!(registry.value_of(&small), Some(bits(2.0)));
    assert_eq!(registry.value_of(&other), Some(bits(5.0)));
}

#[test]
fn invalid_pattern_is_refused_before_conflicts() {
    let mut registry = SubstitutionRegistry::new();
    let empty = PatternKey::Countifs { sheet: None, criteria_pairs: vec![] };
    let result = registry.add_substitution_with_conflict_check(
        empty,
        bits(1.0),
        ironcalc_patterns::conflict::ConflictResolution::WarnOnly,
        false,
        &Vec::new(),
    );
    assert_eq!(result, Err(PatternError::EmptyCriteria));
    assert!(registry.is_empty());
}

// ----------------------------------------------------------------------------
// Validation and messages
// ----------------------------------------------------------------------------

#[test]
fn validation_edge_cases() {
    let long_name = "x".repeat(256);
    let pattern = PatternKey::Countifs {
        sheet: Some(long_name.clone()),
        criteria_pairs: vec![CriteriaPair { column: 1, criteria: CriteriaValue::string("a") }],
    };
    assert_eq!(
        pattern.validate(),
        Err(PatternError::InvalidSheetName { name: long_name })
    );
    let ok_name = "x".repeat(255);
    let pattern = PatternKey::Countifs {
        sheet: Some(ok_name),
        criteria_pairs: vec![CriteriaPair { column: 16_383, criteria: CriteriaValue::string("a") }],
    };
    assert!(pattern.validate().is_ok());
    let pattern = PatternKey::Vlookup {
        sheet: None,
        lookup_value: LookupValue::cell_ref(0, 1_048_576, 1),
        table_range: table(1, 10),
        column_index: 3,
        exact_match: false,
    };
    assert!(matches!(pattern.validate(), Err(PatternError::CellOutOfBounds { .. })));
    let backwards = PatternKey::Vlookup {
        sheet: None,
        lookup_value: LookupValue::string("k"),
        table_range: table(10, 1),
        column_index: 1,
        exact_match: false,
    };
    assert_eq!(backwards.validate(), Err(PatternError::InvalidColumn { column: -1 }));
}

#[test]
fn every_error_has_its_message() {
    assert_eq!(
        PatternError::InvalidSheetName { name: "Bad".to_string() }.to_string(),
        "Invalid sheet name: 'Bad'"
    );
    assert_eq!(
        PatternError::UnsupportedNode { node_type: "StringKind".to_string() }.to_string(),
        "Unsupported node type for pattern extraction: StringKind"
    );
    assert_eq!(
        PatternError::InvalidArgumentCount { expected: "3 or 4".to_string(), found: 2 }.to_string(),
        "Invalid argument count: expected 3 or 4, found 2"
    );
    assert_eq!(
        PatternError::CellOutOfBounds { sheet: 7, row: -1, column: 16384 }.to_string(),
        "Cell reference out of bounds: sheet 7, row -1, column 16384"
    );
    assert_eq!(
        PatternError::InvalidColumn { column: i32::MIN }.to_string(),
        "Invalid column index: -2147483648 (must be >= 0)"
    );
    assert_eq!(
        PatternError::TooManyCriteria { max: 100, found: 0 }.to_string(),
        "Too many criteria pairs: found 0, maximum supported is 100"
    );
}

#[test]
fn number_keys_compare_like_ordered_floats() {
    assert_eq!(NumberKey::from_bits(bits(0.0)), NumberKey::from_bits(bits(-0.0)));
    assert_eq!(NumberKey::from_bits(bits(f64::NAN)), NumberKey::from_bits(bits(-f64::NAN)));
    assert_ne!(NumberKey::from_bits(bits(1.0)), NumberKey::from_bits(bits(-1.0)));
    assert_eq!(NumberKey::from_bits(bits(-0.0)).bits(), 0);
    assert_eq!(CriteriaValue::number(bits(-0.0)), CriteriaValue::number(bits(0.0)));
}

// ----------------------------------------------------------------------------
// Extraction
// ----------------------------------------------------------------------------

fn absolute_column(column: i32) -> Node {
    Node::RangeKind {
        sheet_name: None,
        sheet_index: 0,
        absolute_row1: true,
        absolute_column1: true,
        row1: 1,
        column1: column,
        absolute_row2: true,
        absolute_column2: true,
        row2: 1_048_576,
        column2: column,
    }
}

fn relative_column(offset: i32) -> Node {
    Node::RangeKind {
        sheet_name: None,
        sheet_index: 0,
        absolute_row1: true,
        absolute_column1: false,
        row1: 1,
        column1: offset,
        absolute_row2: true,
        absolute_column2: false,
        row2: 1_048_576,
        column2: offset,
    }
}

fn table_node(absolute: bool) -> Node {
    Node::RangeKind {
        sheet_name: Some("Data".to_string()),
        sheet_index: 1,
        absolute_row1: absolute,
        absolute_column1: absolute,
        row1: 1,
        column1: 1,
        absolute_row2: absolute,
        absolute_column2: absolute,
        row2: 10,
        column2: 3,
    }
}

fn number_node(x: f64) -> Node {
    Node::NumberKind(NumberKey::from_bits(bits(x)), format!("{:?}", x))
}

#[test]
fn reporting_extraction_agrees_with_plain_extraction() {
    let ast = Node::FunctionKind {
        kind: Function::Countifs,
        args: vec![absolute_column(1), Node::StringKind("a".to_string())],
    };
    let strict = PatternKey::try_from_node(&ast).unwrap();
    assert_eq!(PatternKey::from_node(&ast), Some(strict.clone()));
    assert!(strict.validate().is_ok());
}

#[test]
fn relative_columns_need_a_context_cell() {
    let ast = Node::FunctionKind {
        kind: Function::Sumifs,
        args: vec![relative_column(3), relative_column(5), Node::StringKind("a".to_string())],
    };
    assert_eq!(
        PatternKey::try_from_node(&ast),
        Err(PatternError::UnsupportedNode {
            node_type: "relative reference without context".to_string()
        })
    );
    let cell = CellReferenceIndex { sheet: 0, row: 2, column: 2 };
    let with_context = PatternKey::try_from_node_with_context(&ast, cell).unwrap();
    assert_eq!(
        with_context,
        PatternKey::Sumifs {
            sheet: None,
            sum_column: 5,
            criteria_pairs: vec![CriteriaPair { column: 7, criteria: CriteriaValue::string("a") }],
        }
    );
    assert_eq!(PatternKey::from_node_with_context(&ast, cell), Some(with_context));
}

#[test]
fn extraction_errors_are_reported() {
    let multi = Node::FunctionKind {
        kind: Function::Sumifs,
        args: vec![
            Node::RangeKind {
                sheet_name: None,
                sheet_index: 0,
                absolute_row1: true,
                absolute_column1: true,
                row1: 1,
                column1: 4,
                absolute_row2: true,
                absolute_column2: true,
                row2: 10,
                column2: 5,
            },
            absolute_column(6),
            Node::StringKind("a".to_string()),
        ],
    };
    assert_eq!(
        PatternKey::try_from_node(&multi),
        Err(PatternError::MultiColumnRange { start: 4, end: 5 })
    );
    let literal = Node::StringKind("x".to_string());
    assert_eq!(
        PatternKey::try_from_node(&literal),
        Err(PatternError::UnsupportedNode { node_type: "StringKind(\"x\")".to_string() })
    );
    let spaced = Node::StringKind("Collections Dept".to_string());
    assert_eq!(
        PatternKey::try_from_node(&spaced),
        Err(PatternError::UnsupportedNode { node_type: "StringKind(\"Collections".to_string() })
    );
    assert_eq!(
        PatternKey::try_from_node(&number_node(1.0)),
        Err(PatternError::UnsupportedNode { node_type: "NumberKind(1.0)".to_string() })
    );
    assert_eq!(
        PatternKey::try_from_node(&number_node(-0.0)),
        Err(PatternError::UnsupportedNode { node_type: "NumberKind(-0.0)".to_string() })
    );
    assert_eq!(
        PatternKey::try_from_node(&Node::BooleanKind(true)),
        Err(PatternError::UnsupportedNode { node_type: "BooleanKind(true)".to_string() })
    );
    let countifs_odd = Node::FunctionKind {
        kind: Function::Countifs,
        args: vec![absolute_column(1), Node::StringKind("a".to_string()), absolute_column(2)],
    };
    assert_eq!(
        PatternKey::try_from_node(&countifs_odd),
        Err(PatternError::InvalidArgumentCount {
            expected: "even number (2, 4, 6, ...)".to_string(),
            found: 3
        })
    );
}

#[test]
fn vlookup_extraction() {
    let ast = Node::FunctionKind {
        kind: Function::Vlookup,
        args: vec![
            Node::StringKind("key".to_string()),
            table_node(true),
            number_node(2.0),
            Node::BooleanKind(false),
        ],
    };
    let expected = PatternKey::Vlookup {
        sheet: Some("Data".to_string()),
        lookup_value: LookupValue::string("key"),
        table_range: TableRange {
            sheet: Some("Data".to_string()),
            start_row: 1,
            start_column: 1,
            end_row: 10,
            end_column: 3,
        },
        column_index: 2,
        exact_match: true,
    };
    assert_eq!(PatternKey::try_from_node(&ast), Ok(expected.clone()));
    assert_eq!(PatternKey::from_node(&ast), Some(expected));
    let fractional = Node::FunctionKind {
        kind: Function::Vlookup,
        args: vec![Node::StringKind("key".to_string()), table_node(true), number_node(2.5)],
    };
    assert_eq!(
        PatternKey::try_from_node(&fractional),
        Err(PatternError::InvalidColumn { column: 2 })
    );
    assert_eq!(PatternKey::from_node(&fractional), None);
    let relative = Node::FunctionKind {
        kind: Function::Vlookup,
        args: vec![Node::StringKind("key".to_string()), table_node(false), number_node(2.0)],
    };
    let cell = CellReferenceIndex { sheet: 0, row: 1, column: 1 };
    match PatternKey::try_from_node_with_context(&relative, cell) {
        Ok(PatternKey::Vlookup { table_range, exact_match, .. }) => {
            assert_eq!(table_range.start_row, 2);
            assert_eq!(table_range.end_column, 4);
            assert!(!exact_match);
        }
        _ => panic!("expected a VLOOKUP pattern"),
    }
}

// ----------------------------------------------------------------------------
// Dates
// ----------------------------------------------------------------------------

fn num_error(message: &str) -> FormulaError {
    FormulaError { code: ErrorCode::Num, message: message.to_string() }
}

#[test]
fn day_month_year_of_a_serial() {
    assert_eq!(fn_day(Ok(45306)), Ok(15));
    assert_eq!(fn_month(Ok(45306)), Ok(1));
    assert_eq!(fn_year(Ok(45306)), Ok(2024));
    assert_eq!(fn_year(Ok(2)), Ok(1900));
    assert_eq!(fn_year(Ok(1)), Ok(1899));
    assert_eq!(fn_day(Ok(2_958_465)), Ok(31));
    assert_eq!(
        from_excel_date(45351),
        Some(CivilDate { year: 2024, month: 2, day: 29 })
    );
}

#[test]
fn serials_out_of_range_are_errors() {
    let out = num_error("Out of range parameters for date");
    assert_eq!(fn_day(Ok(0)), Err(out.clone()));
    assert_eq!(fn_month(Ok(2_958_466)), Err(out.clone()));
    assert_eq!(fn_year(Ok(-3)), Err(out));
    let passed = FormulaError { code: ErrorCode::Value, message: "bad".to_string() };
    assert_eq!(fn_day(Err(passed.clone())), Err(passed));
}

#[test]
fn date_round_trip() {
    for serial in [2i64, 60, 61, 45292, 45306, 45351, 2_958_465] {
        let y = fn_year(Ok(serial)).unwrap();
        let m = fn_month(Ok(serial)).unwrap() as i32;
        let d = fn_day(Ok(serial)).unwrap() as i32;
        assert_eq!(fn_date(Ok(y), Ok(m), Ok(d)), Ok(serial as i32));
    }
    // December 31, 1899 (serial 1) has no DATE: its year starts before the range.
    assert!(fn_date(Ok(1899), Ok(12), Ok(31)).is_err());
}

#[test]
fn date_reads_months_and_days_permissively() {
    assert_eq!(fn_date(Ok(2024), Ok(1), Ok(15)), Ok(45306));
    assert_eq!(fn_date(Ok(2024), Ok(3), Ok(0)), Ok(45351));
    assert_eq!(fn_date(Ok(2024), Ok(14), Ok(1)), Ok(45689));
    assert_eq!(fn_date(Ok(2024), Ok(0), Ok(31)), Ok(45291));
    assert_eq!(fn_date(Ok(1900), Ok(1), Ok(1)), Ok(2));
    assert_eq!(fn_date(Ok(-1), Ok(1), Ok(1)), Err(num_error("Out of range parameters for date")));
    assert_eq!(fn_date(Ok(10000), Ok(1), Ok(1)), Err(num_error("Out of range parameters for date")));
}

#[test]
fn eomonth_is_the_last_day_of_the_month() {
    assert_eq!(fn_eomonth(Ok(45306), Ok(1)), Ok(45351));
    assert_eq!(fn_eomonth(Ok(45306), Ok(-1)), Ok(45291));
    assert_eq!(fn_eomonth(Ok(45306), Ok(0)), Ok(45322));
    assert_eq!(fn_day(Ok(fn_eomonth(Ok(45306), Ok(1)).unwrap() as i64 + 1)), Ok(1));
    assert_eq!(
        fn_eomonth(Ok(-1), Ok(0)),
        Err(num_error(
            "Function EOMONTH parameter 1 value is negative. It should be positive or zero."
        ))
    );
    assert_eq!(fn_eomonth(Ok(0), Ok(0)), Err(num_error("Out of range parameters for date")));
}

#[test]
fn edate_clamps_the_day() {
    assert_eq!(fn_edate(Ok(45322), Ok(1)), Ok(45351));
    assert_eq!(fn_edate(Ok(45016), Ok(-1)), Ok(44985));
    assert_eq!(fn_edate(Ok(45016), Ok(1)), Ok(45046));
    assert_eq!(fn_edate(Ok(45306), Ok(0)), Ok(45306));
    assert_eq!(fn_edate(Ok(45), Ok(-12)), Err(num_error("EDATE out of bounds")));
}

#[test]
fn datedif_units() {
    let start = 43845; // 2020-01-15
    let end = 45361; // 2024-03-10
    let unit = |u: &str| Ok(u.to_string());
    assert_eq!(fn_datedif(Ok(start), Ok(end), unit("Y")), Ok(4));
    assert_eq!(fn_datedif(Ok(start), Ok(end), unit("m")), Ok(49));
    assert_eq!(fn_datedif(Ok(start), Ok(end), unit("D")), Ok(1516));
    assert_eq!(fn_datedif(Ok(start), Ok(end), unit("md")), Ok(24));
    assert_eq!(fn_datedif(Ok(start), Ok(end), unit("YM")), Ok(1));
    assert_eq!(fn_datedif(Ok(start), Ok(end), unit("yd")), Ok(55));
    assert_eq!(
        fn_datedif(Ok(start), Ok(end), unit("w")),
        Err(num_error("Function DATEDIF has invalid unit: W"))
    );
    assert_eq!(
        fn_datedif(Ok(end), Ok(start), unit("D")),
        Err(num_error("Function DATEDIF requires start_date <= end_date"))
    );
    assert_eq!(
        fn_datedif(Ok(0), Ok(start), unit("D")),
        Err(FormulaError {
            code: ErrorCode::Value,
            message: "Function DATEDIF parameter 1 has incorrect date value".to_string()
        })
    );
}

#[test]
fn today_is_counted_from_the_base_date() {
    assert_eq!(fn_today(738_886), 45292);
}

// ----------------------------------------------------------------------------
// Preconditions that callers test first
// ----------------------------------------------------------------------------

#[test]
fn context_offsets_are_checked_where_they_are_resolved() {
    let cell = CellReferenceIndex { sheet: 0, row: 1, column: i32::MAX };
    let ast = Node::FunctionKind {
        kind: Function::Sumifs,
        args: vec![relative_column(3), absolute_column(5), Node::StringKind("a".to_string())],
    };
    assert!(!ast.fits_context(cell));
    assert!(!ast.fits_context_strict(cell));
    // A multi-column first range stops extraction before any column is resolved.
    let stops_early = Node::FunctionKind {
        kind: Function::Sumifs,
        args: vec![
            Node::RangeKind {
                sheet_name: None,
                sheet_index: 0,
                absolute_row1: true,
                absolute_column1: true,
                row1: 1,
                column1: 4,
                absolute_row2: true,
                absolute_column2: true,
                row2: 10,
                column2: 5,
            },
            relative_column(3),
            Node::StringKind("a".to_string()),
        ],
    };
    assert!(stops_early.fits_context(cell));
    assert!(stops_early.fits_context_strict(cell));
    assert_eq!(PatternKey::from_node_with_context(&stops_early, cell), None);
    let small = CellReferenceIndex { sheet: 0, row: 1, column: 1 };
    assert!(ast.fits_context(small));
    assert!(ast.fits_context_strict(small));
}

#[test]
fn month_shifts_are_checked_against_the_calendar_range() {
    assert!(month_shift_fits(&Ok(45306), &Ok(12)));
    assert!(!month_shift_fits(&Ok(45306), &Ok(i32::MAX)));
    assert!(!month_shift_fits(&Ok(45306), &Ok(i32::MIN)));
    // A serial number outside the dates is answered with an error, not shifted.
    assert!(month_shift_fits(&Ok(0), &Ok(i32::MAX)));
}

#[test]
fn table_sizes_are_checked_before_comparing() {
    let mut registry = SubstitutionRegistry::new();
    let huge = PatternKey::Vlookup {
        sheet: None,
        lookup_value: LookupValue::string("k"),
        table_range: TableRange {
            sheet: Some("T".to_string()),
            start_row: 1,
            start_column: 1,
            end_row: i32::MAX,
            end_column: 3,
        },
        column_index: 2,
        exact_match: true,
    };
    registry.add_substitution(huge, bits(1.0));
    assert!(!registry.conflicts_computable(&vlookup(1, 10)));
    assert!(registry.conflicts_computable(&sumifs(2, "a")));
}

// Mirrors of the pattern types with doubles, written with derived `Debug`.
#[derive(Debug)]
struct CellReferenceIndexF {
    sheet: u32,
    row: i32,
    column: i32,
}

#[derive(Debug)]
enum ValueF {
    String(String),
    Number(f64),
    CellReference(CellReferenceIndexF),
}

#[derive(Debug)]
struct CriteriaPairF {
    column: i32,
    criteria: ValueF,
}

#[derive(Debug)]
enum PatternF {
    Averageifs { sheet: Option<String>, average_column: i32, criteria_pairs: Vec<CriteriaPairF> },
}

#[derive(Debug)]
enum ConflictF {
    SamePatternDifferentValues { pattern: PatternF, value1: f64, value2: f64 },
}

#[test]
fn conflict_listing_matches_derived_debug() {
    let mirror = vec![ConflictF::SamePatternDifferentValues {
        pattern: PatternF::Averageifs {
            sheet: Some("Q\u{e9}\t\"x\"".to_string()),
            average_column: -4,
            criteria_pairs: vec![
                CriteriaPairF { column: 3, criteria: ValueF::String("a\\b\n".to_string()) },
                CriteriaPairF { column: 5, criteria: ValueF::Number(-0.25) },
                CriteriaPairF {
                    column: 6,
                    criteria: ValueF::CellReference(CellReferenceIndexF { sheet: 1, row: 2, column: 3 }),
                },
            ],
        },
        value1: 1e21,
        value2: 0.1,
    }];
    let pattern = PatternKey::Averageifs {
        sheet: Some("Q\u{e9}\t\"x\"".to_string()),
        average_column: -4,
        criteria_pairs: vec![
            CriteriaPair { column: 3, criteria: CriteriaValue::string("a\\b\n") },
            CriteriaPair { column: 5, criteria: CriteriaValue::number(bits(-0.25)) },
            CriteriaPair { column: 6, criteria: CriteriaValue::cell_ref(1, 2, 3) },
        ],
    };
    let conflicts = vec![PatternConflict::SamePatternDifferentValues {
        pattern,
        value1: bits(1e21),
        value2: bits(0.1),
    }];
    let texts: Vec<(u64, String)> = [-0.25f64, 1e21, 0.1]
        .iter()
        .map(|v| (v.to_bits(), format!("{:?}", v)))
        .collect();
    let listing = ironcalc_patterns::listing::conflicts_listing(&conflicts, &texts);
    let expected = format!("{:?}", mirror)
        .replace("CriteriaPairF", "CriteriaPair")
        .replace("CellReferenceIndexF", "CellReferenceIndex");
    assert_eq!(listing, expected);
}

#[test]
fn memory_estimate_formula() {
    assert_eq!(ironcalc_patterns::registry::memory_estimate_for(100, 3), 1600 + 324);
    assert_eq!(ironcalc_patterns::registry::memory_estimate_for(0, 0), 0);
    assert_eq!(ironcalc_patterns::registry::memory_estimate_for(usize::MAX, 1), usize::MAX);
}

#[test]
fn datedif_for_an_upper_cased_unit() {
    let unit = |u: &str| u.to_string();
    assert_eq!(ironcalc_patterns::date_and_time::datedif_for_unit(45322, 45351, &unit("M")), Ok(0));
    assert_eq!(ironcalc_patterns::date_and_time::datedif_for_unit(45322, 45351, &unit("D")), Ok(29));
    assert_eq!(
        ironcalc_patterns::date_and_time::datedif_for_unit(45322, 45351, &unit("m")),
        Err(num_error("Function DATEDIF has invalid unit: m"))
    );
    // Months are twelve times the years plus the months ignoring years.
    let (s, e) = (43845, 45361);
    let y = fn_datedif(Ok(s), Ok(e), Ok("y".to_string())).unwrap();
    let m = fn_datedif(Ok(s), Ok(e), Ok("M".to_string())).unwrap();
    let ym = fn_datedif(Ok(s), Ok(e), Ok("ym".to_string())).unwrap();
    assert_eq!(m, 12 * y + ym);
}

#[test]
fn complete_builds_name_the_first_missing_field() {
    assert_eq!(
        PatternKey::sumifs().criteria_string(2, "a").build_complete(),
        Err(MissingField::SumColumn)
    );
    assert_eq!(
        PatternKey::sumifs().sum_column(4).build_complete(),
        Err(MissingField::CriteriaPairs)
    );
    assert_eq!(
        PatternKey::sumifs().sum_column(4).criteria_string(2, "a").build_complete(),
        Ok(PatternKey::Sumifs {
            sheet: None,
            sum_column: 4,
            criteria_pairs: vec![CriteriaPair {
                column: 2,
                criteria: CriteriaValue::String("a".to_string()),
            }],
        })
    );
    assert_eq!(
        PatternKey::averageifs().build_complete(),
        Err(MissingField::AverageColumn)
    );
    assert_eq!(
        PatternKey::averageifs().average_column(3).build_complete(),
        Err(MissingField::CriteriaPairs)
    );
    assert_eq!(MissingField::SumColumn.message(), "Sum column is required");
    assert_eq!(MissingField::AverageColumn.message(), "Average column is required");
    assert_eq!(
        MissingField::CriteriaPairs.message(),
        "At least one criteria pair is required"
    );
}
