use std::collections::{HashMap, HashSet};
use ironcalc_patterns::conflict::{ConflictResolution, PatternConflict};
use ironcalc_patterns::error::PatternError;
use ironcalc_patterns::extract::{Function, Node};
use ironcalc_patterns::pattern_key::{
    CellReferenceIndex, CriteriaPair, CriteriaValue, LookupValue, NumberKey, PatternKey,
    TableRange,
};
use ironcalc_patterns::registry::{RegistryStats, SubstitutionRegistry};

/// Key of a double, as stored in patterns.
fn key(x: f64) -> NumberKey {
    NumberKey::from_bits(x.to_bits())
}

/// Value read back from a registry answer.
fn as_f64(v: Option<u64>) -> Option<f64> {
    v.map(f64::from_bits)
}

/// Percentage of active lookups that succeeded.
fn success_rate(stats: &RegistryStats) -> f64 {
    let active_lookups = stats.successful_lookups + stats.failed_lookups;
    if active_lookups == 0 {
        0.0
    } else {
        (stats.successful_lookups as f64 / active_lookups as f64) * 100.0
    }
}

/// The `{:?}` texts of some doubles, by bit pattern.
fn number_texts(values: &[f64]) -> Vec<(u64, String)> {
    values.iter().map(|v| (v.to_bits(), format!("{:?}", v))).collect()
}

/// Whether the value registered under `pattern` lies within `f64::EPSILON` of `value`.
fn close_to_registered(registry: &SubstitutionRegistry, pattern: &PatternKey, value: f64) -> bool {
    match registry.value_of(pattern) {
        Some(v) => (f64::from_bits(v) - value).abs() < f64::EPSILON,
        None => false,
    }
}

const LAST_ROW: i32 = 1_048_576;

/// A whole-column range node such as `$D:$D` (absolute) or `D:D` (an offset from A1).
fn column_range(sheet: Option<(&str, u32)>, column: i32, absolute: bool) -> Node {
    let c = if absolute { column } else { column - 1 };
    Node::RangeKind {
        sheet_name: sheet.map(|(name, _)| name.to_string()),
        sheet_index: sheet.map(|(_, index)| index).unwrap_or(0),
        absolute_row1: true,
        absolute_column1: absolute,
        row1: 1,
        column1: c,
        absolute_row2: true,
        absolute_column2: absolute,
        row2: LAST_ROW,
        column2: c,
    }
}

/// A range node over two columns such as `D:E` (offsets from A1).
fn two_column_range(first: i32, last: i32) -> Node {
    Node::RangeKind {
        sheet_name: None,
        sheet_index: 0,
        absolute_row1: true,
        absolute_column1: false,
        row1: 1,
        column1: first - 1,
        absolute_row2: true,
        absolute_column2: false,
        row2: LAST_ROW,
        column2: last - 1,
    }
}

fn text(s: &str) -> Node {
    Node::StringKind(s.to_string())
}

fn number(x: f64) -> Node {
    Node::NumberKind(key(x), format!("{:?}", x))
}

fn call(kind: Function, args: Vec<Node>) -> Node {
    Node::FunctionKind { kind, args }
}

fn simple_sumifs(value: &str) -> PatternKey {
    PatternKey::Sumifs {
        sheet: None,
        sum_column: 2,
        criteria_pairs: vec![CriteriaPair {
            column: 1,
            criteria: CriteriaValue::String(value.to_string()),
        }],
    }
}

#[test]
fn test_pattern_key_hash_equality() {
    let pattern1 = PatternKey::Sumifs {
        sheet: Some("Sheet1".to_string()),
        sum_column: 4,
        criteria_pairs: vec![CriteriaPair {
            column: 6,
            criteria: CriteriaValue::String("Test".to_string()),
        }],
    };
    let pattern2 = PatternKey::Sumifs {
        sheet: Some("Sheet1".to_string()),
        sum_column: 4,
        criteria_pairs: vec![CriteriaPair {
            column: 6,
            criteria: CriteriaValue::String("Test".to_string()),
        }],
    };
    let pattern3 = PatternKey::Sumifs {
        sheet: Some("Sheet1".to_string()),
        sum_column: 5,
        criteria_pairs: vec![CriteriaPair {
            column: 6,
            criteria: CriteriaValue::String("Test".to_string()),
        }],
    };

    assert_eq!(pattern1, pattern2);
    assert_ne!(pattern1, pattern3);
    assert!(pattern1.equals(&pattern2));
    assert!(!pattern1.equals(&pattern3));

    let mut map = HashMap::new();
    map.insert(pattern1.clone(), 42.0);

    assert_eq!(map.get(&pattern2), Some(&42.0));
    assert_eq!(map.get(&pattern3), None);
}

#[test]
fn test_criteria_value_types() {
    let string_criteria = CriteriaValue::String("Test".to_string());
    let number_criteria = CriteriaValue::Number(key(123.45));
    let cell_criteria = CriteriaValue::CellReference(CellReferenceIndex {
        sheet: 0,
        row: 1,
        column: 1,
    });

    let mut set = HashSet::new();
    set.insert(string_criteria.clone());
    set.insert(number_criteria.clone());
    set.insert(cell_criteria.clone());

    assert!(set.contains(&string_criteria));
    assert!(set.contains(&number_criteria));
    assert!(set.contains(&cell_criteria));
}

#[test]
fn test_sumifs_builder() {
    let pattern = PatternKey::sumifs()
        .sheet("TestSheet")
        .sum_column(4)
        .criteria_string(6, "Collections Clinic")
        .criteria_number(8, 1811349806.0f64.to_bits())
        .build()
        .unwrap();

    match pattern {
        PatternKey::Sumifs {
            sheet,
            sum_column,
            criteria_pairs,
        } => {
            assert_eq!(sheet, Some("TestSheet".to_string()));
            assert_eq!(sum_column, 4);
            assert_eq!(criteria_pairs.len(), 2);

            assert_eq!(criteria_pairs[0].column, 6);
            assert_eq!(
                criteria_pairs[0].criteria,
                CriteriaValue::String("Collections Clinic".to_string())
            );

            assert_eq!(criteria_pairs[1].column, 8);
            assert_eq!(
                criteria_pairs[1].criteria,
                CriteriaValue::Number(key(1811349806.0))
            );
        }
        _ => panic!("Expected Sumifs pattern"),
    }
}

#[test]
fn test_builder_missing_required_field() {
    let pattern = PatternKey::sumifs()
        .sheet("TestSheet")
        .criteria_string(6, "Test")
        .build();

    assert!(pattern.is_none());
}

#[test]
fn test_criteria_value_convenience_constructors() {
    let string_val = CriteriaValue::string("Test");
    let number_val = CriteriaValue::number(42.0f64.to_bits());
    let cell_val = CriteriaValue::cell_ref(0, 1, 1);

    assert_eq!(string_val, CriteriaValue::String("Test".to_string()));
    assert_eq!(number_val, CriteriaValue::Number(key(42.0)));
    assert_eq!(
        cell_val,
        CriteriaValue::CellReference(CellReferenceIndex {
            sheet: 0,
            row: 1,
            column: 1
        })
    );
}

#[test]
fn test_complex_multi_criteria_pattern() {
    let pattern = PatternKey::sumifs()
        .sheet("INJECT.MONTHLY")
        .sum_column(4)
        .criteria_string(6, "Collections Clinic")
        .criteria_string(7, "Active")
        .criteria_number(8, 100.0f64.to_bits())
        .build()
        .unwrap();

    let mut substitutions = HashMap::new();
    substitutions.insert(pattern.clone(), 42000.0);

    let lookup_pattern = PatternKey::sumifs()
        .sheet("INJECT.MONTHLY")
        .sum_column(4)
        .criteria_string(6, "Collections Clinic")
        .criteria_string(7, "Active")
        .criteria_number(8, 100.0f64.to_bits())
        .build()
        .unwrap();

    assert_eq!(substitutions.get(&lookup_pattern), Some(&42000.0));
}

// SUMIFS($D:$D,$F:$F,"Collections Clinic")
#[test]
fn test_from_node_basic_sumifs() {
    let ast = call(
        Function::Sumifs,
        vec![
            column_range(None, 4, true),
            column_range(None, 6, true),
            text("Collections Clinic"),
        ],
    );
    let pattern = PatternKey::from_node(&ast).unwrap();

    let expected = PatternKey::Sumifs {
        sheet: None,
        sum_column: 4,
        criteria_pairs: vec![CriteriaPair {
            column: 6,
            criteria: CriteriaValue::String("Collections Clinic".to_string()),
        }],
    };

    assert_eq!(pattern, expected);
}

// SUMIFS($D:$D,$F:$F,"Collections Clinic",$H:$H,1811349806)
#[test]
fn test_from_node_multi_criteria_sumifs() {
    let ast = call(
        Function::Sumifs,
        vec![
            column_range(None, 4, true),
            column_range(None, 6, true),
            text("Collections Clinic"),
            column_range(None, 8, true),
            number(1811349806.0),
        ],
    );
    let pattern = PatternKey::from_node(&ast).unwrap();

    let expected = PatternKey::Sumifs {
        sheet: None,
        sum_column: 4,
        criteria_pairs: vec![
            CriteriaPair {
                column: 6,
                criteria: CriteriaValue::String("Collections Clinic".to_string()),
            },
            CriteriaPair {
                column: 8,
                criteria: CriteriaValue::Number(key(1811349806.0)),
            },
        ],
    };

    assert_eq!(pattern, expected);
}

// SUMIFS($D:$D,$F:$F,$C$2)
#[test]
fn test_from_node_cell_reference_criteria() {
    let ast = call(
        Function::Sumifs,
        vec![
            column_range(None, 4, true),
            column_range(None, 6, true),
            Node::ReferenceKind {
                sheet_name: None,
                sheet_index: 0,
                absolute_row: true,
                absolute_column: true,
                row: 2,
                column: 3,
            },
        ],
    );
    let pattern = PatternKey::from_node(&ast).unwrap();

    let expected = PatternKey::Sumifs {
        sheet: None,
        sum_column: 4,
        criteria_pairs: vec![CriteriaPair {
            column: 6,
            criteria: CriteriaValue::CellReference(CellReferenceIndex {
                sheet: 0,
                row: 2,
                column: 3,
            }),
        }],
    };

    assert_eq!(pattern, expected);
}

// SUMIFS(DataSheet!D:D,DataSheet!F:F,"Active"), written in cell A1 of Sheet1
#[test]
fn test_from_node_with_sheet_reference() {
    let data_sheet = Some(("DataSheet", 1));
    let ast = call(
        Function::Sumifs,
        vec![
            column_range(data_sheet, 4, false),
            column_range(data_sheet, 6, false),
            text("Active"),
        ],
    );
    let pattern = PatternKey::from_node(&ast).unwrap();

    let expected = PatternKey::Sumifs {
        sheet: Some("DataSheet".to_string()),
        sum_column: 3,
        criteria_pairs: vec![CriteriaPair {
            column: 5,
            criteria: CriteriaValue::String("Active".to_string()),
        }],
    };

    assert_eq!(pattern, expected);
}

// SUM(D:D)
#[test]
fn test_from_node_non_sumifs_function() {
    let ast = call(Function::Other, vec![column_range(None, 4, false)]);
    let pattern = PatternKey::from_node(&ast);

    assert!(pattern.is_none());
}

// SUMIFS(D:D,F:F)
#[test]
fn test_from_node_invalid_sumifs_arguments() {
    let ast = call(
        Function::Sumifs,
        vec![column_range(None, 4, false), column_range(None, 6, false)],
    );
    let pattern = PatternKey::from_node(&ast);

    assert!(pattern.is_none());
}

// SUMIFS(D:E,F:F,"Active")
#[test]
fn test_from_node_multi_column_range_rejected() {
    let ast = call(
        Function::Sumifs,
        vec![
            two_column_range(4, 5),
            column_range(None, 6, false),
            text("Active"),
        ],
    );
    let pattern = PatternKey::from_node(&ast);

    assert!(pattern.is_none());
}

#[test]
fn test_substitution_registry_basic_operations() {
    let mut registry = SubstitutionRegistry::new();

    assert!(registry.is_active());
    assert!(registry.is_empty());
    assert_eq!(registry.len(), 0);

    let pattern = PatternKey::sumifs()
        .sheet("TestSheet")
        .sum_column(4)
        .criteria_string(6, "Active")
        .build()
        .unwrap();

    let previous = registry.add_substitution(pattern.clone(), 42000.0f64.to_bits());
    assert!(previous.is_none());
    assert!(!registry.is_empty());
    assert_eq!(registry.len(), 1);
    assert!(registry.contains_pattern(&pattern));

    let value = registry.get_substitution(&pattern);
    assert_eq!(as_f64(value), Some(42000.0));

    let previous = registry.add_substitution(pattern.clone(), 50000.0f64.to_bits());
    assert_eq!(as_f64(previous), Some(42000.0));
    assert_eq!(registry.len(), 1);

    let removed = registry.remove_substitution(&pattern);
    assert_eq!(as_f64(removed), Some(50000.0));
    assert!(registry.is_empty());
    assert!(!registry.contains_pattern(&pattern));
}

#[test]
fn test_substitution_registry_activation() {
    let mut registry = SubstitutionRegistry::new();

    let pattern = PatternKey::sumifs()
        .sheet("TestSheet")
        .sum_column(4)
        .criteria_string(6, "Active")
        .build()
        .unwrap();

    registry.add_substitution(pattern.clone(), 42000.0f64.to_bits());

    assert!(registry.is_active());
    assert_eq!(as_f64(registry.get_substitution(&pattern)), Some(42000.0));

    registry.set_active(false);
    assert!(!registry.is_active());
    assert_eq!(registry.get_substitution(&pattern), None);

    assert!(registry.contains_pattern(&pattern));
    assert_eq!(registry.len(), 1);

    registry.set_active(true);
    assert_eq!(as_f64(registry.get_substitution(&pattern)), Some(42000.0));
}

#[test]
fn test_substitution_registry_bulk_operations() {
    let mut registry = SubstitutionRegistry::new();

    let pattern1 = PatternKey::sumifs()
        .sheet("Sheet1")
        .sum_column(4)
        .criteria_string(6, "Active")
        .build()
        .unwrap();
    let pattern2 = PatternKey::sumifs()
        .sheet("Sheet2")
        .sum_column(5)
        .criteria_string(7, "Inactive")
        .build()
        .unwrap();
    let pattern3 = PatternKey::sumifs()
        .sum_column(6)
        .criteria_number(8, 123.45f64.to_bits())
        .build()
        .unwrap();

    let substitutions = vec![
        (pattern1.clone(), 1000.0f64.to_bits()),
        (pattern2.clone(), 2000.0f64.to_bits()),
        (pattern3.clone(), 3000.0f64.to_bits()),
    ];

    let count = registry.add_bulk(substitutions);
    assert_eq!(count, 3);
    assert_eq!(registry.len(), 3);

    let patterns = registry.patterns();
    assert_eq!(patterns.len(), 3);

    let values = registry.values();
    assert_eq!(values.len(), 3);

    let entries = registry.entries();
    assert_eq!(entries.len(), 3);

    registry.clear();
    assert!(registry.is_empty());
    assert_eq!(registry.len(), 0);
}

#[test]
fn test_substitution_registry_statistics() {
    let mut registry = SubstitutionRegistry::new();

    let pattern1 = PatternKey::sumifs()
        .sum_column(4)
        .criteria_string(6, "Active")
        .build()
        .unwrap();
    let pattern2 = PatternKey::sumifs()
        .sum_column(5)
        .criteria_string(7, "Inactive")
        .build()
        .unwrap();

    let stats = registry.stats();
    assert_eq!(stats.total_lookups(), 0);
    assert_eq!(success_rate(stats), 0.0);
    assert_eq!(stats.net_changes(), 0);

    registry.add_substitution(pattern1.clone(), 1000.0f64.to_bits());
    registry.add_substitution(pattern2.clone(), 2000.0f64.to_bits());

    let stats = registry.stats();
    assert_eq!(stats.additions, 2);
    assert_eq!(stats.removals, 0);
    assert_eq!(stats.net_changes(), 2);

    registry.get_substitution(&pattern1);
    registry.get_substitution(&pattern2);

    let stats = registry.stats();
    assert_eq!(stats.successful_lookups, 2);
    assert_eq!(stats.failed_lookups, 0);
    assert_eq!(success_rate(stats), 100.0);

    let nonexistent_pattern = PatternKey::sumifs()
        .sum_column(10)
        .criteria_string(11, "Nonexistent")
        .build()
        .unwrap();

    registry.get_substitution(&nonexistent_pattern);

    let stats = registry.stats();
    assert_eq!(stats.successful_lookups, 2);
    assert_eq!(stats.failed_lookups, 1);
    assert!((success_rate(stats) - 66.66666666666667).abs() < 0.001);

    registry.set_active(false);
    registry.get_substitution(&pattern1);

    let stats = registry.stats();
    assert_eq!(stats.inactive_lookups, 1);
    assert_eq!(stats.total_lookups(), 4);

    registry.set_active(true);
    registry.remove_substitution(&pattern1);

    let stats = registry.stats();
    assert_eq!(stats.removals, 1);
    assert_eq!(stats.net_changes(), 1);

    registry.reset_stats();
    let stats = registry.stats();
    assert_eq!(stats.total_lookups(), 0);
    assert_eq!(stats.additions, 0);
    assert_eq!(stats.removals, 0);
}

#[test]
fn test_substitution_registry_with_capacity() {
    let registry = SubstitutionRegistry::with_capacity(100);
    assert!(registry.is_active());
    assert!(registry.is_empty());

    let memory_usage = registry.memory_usage_estimate();
    assert!(memory_usage > 0);
}

#[test]
fn test_substitution_registry_memory_usage() {
    let mut registry = SubstitutionRegistry::new();

    let initial_usage = registry.memory_usage_estimate();

    for i in 0..10 {
        let pattern = PatternKey::sumifs()
            .sum_column(i + 1)
            .criteria_string(6, &format!("Value{}", i))
            .build()
            .unwrap();
        registry.add_substitution(pattern, (i as f64 * 1000.0).to_bits());
    }

    let usage_with_data = registry.memory_usage_estimate();
    assert!(usage_with_data > initial_usage);
}

#[test]
fn test_substitution_registry_default() {
    let registry = SubstitutionRegistry::default();
    assert!(registry.is_active());
    assert!(registry.is_empty());
}

#[test]
fn test_registry_stats_edge_cases() {
    let stats = RegistryStats::default();

    assert_eq!(success_rate(&stats), 0.0);
    assert_eq!(stats.total_lookups(), 0);
    assert_eq!(stats.net_changes(), 0);

    let stats = RegistryStats {
        successful_lookups: 0,
        failed_lookups: 0,
        inactive_lookups: 5,
        additions: 0,
        removals: 0,
    };

    assert_eq!(success_rate(&stats), 0.0);
    assert_eq!(stats.total_lookups(), 5);
}

#[test]
fn test_pattern_validation_valid_patterns() {
    let pattern = PatternKey::Sumifs {
        sheet: Some("Sheet1".to_string()),
        sum_column: 2,
        criteria_pairs: vec![CriteriaPair {
            column: 1,
            criteria: CriteriaValue::String("Test".to_string()),
        }],
    };
    assert!(pattern.validate().is_ok());

    let pattern = PatternKey::Sumifs {
        sheet: None,
        sum_column: 5,
        criteria_pairs: vec![
            CriteriaPair {
                column: 1,
                criteria: CriteriaValue::String("Active".to_string()),
            },
            CriteriaPair {
                column: 3,
                criteria: CriteriaValue::Number(key(100.0)),
            },
            CriteriaPair {
                column: 7,
                criteria: CriteriaValue::CellReference(CellReferenceIndex {
                    sheet: 0,
                    row: 5,
                    column: 2,
                }),
            },
        ],
    };
    assert!(pattern.validate().is_ok());
}

#[test]
fn test_pattern_validation_errors() {
    let pattern = PatternKey::Sumifs {
        sheet: None,
        sum_column: 2,
        criteria_pairs: vec![],
    };
    match pattern.validate() {
        Err(PatternError::EmptyCriteria) => {}
        _ => panic!("Expected EmptyCriteria error"),
    }

    let pattern = PatternKey::Sumifs {
        sheet: None,
        sum_column: -1,
        criteria_pairs: vec![CriteriaPair {
            column: 1,
            criteria: CriteriaValue::String("Test".to_string()),
        }],
    };
    match pattern.validate() {
        Err(PatternError::InvalidColumn { column: -1 }) => {}
        _ => panic!("Expected InvalidColumn error"),
    }

    let pattern = PatternKey::Sumifs {
        sheet: None,
        sum_column: 2,
        criteria_pairs: vec![CriteriaPair {
            column: -5,
            criteria: CriteriaValue::String("Test".to_string()),
        }],
    };
    match pattern.validate() {
        Err(PatternError::InvalidColumn { column: -5 }) => {}
        _ => panic!("Expected InvalidColumn error"),
    }

    let pattern = PatternKey::Sumifs {
        sheet: None,
        sum_column: 2,
        criteria_pairs: vec![
            CriteriaPair {
                column: 3,
                criteria: CriteriaValue::String("Test1".to_string()),
            },
            CriteriaPair {
                column: 3,
                criteria: CriteriaValue::String("Test2".to_string()),
            },
        ],
    };
    match pattern.validate() {
        Err(PatternError::DuplicateColumn { column: 3 }) => {}
        _ => panic!("Expected DuplicateColumn error"),
    }

    let pattern = PatternKey::Sumifs {
        sheet: Some("".to_string()),
        sum_column: 2,
        criteria_pairs: vec![CriteriaPair {
            column: 1,
            criteria: CriteriaValue::String("Test".to_string()),
        }],
    };
    match pattern.validate() {
        Err(PatternError::InvalidSheetName { .. }) => {}
        _ => panic!("Expected InvalidSheetName error"),
    }

    let pattern = PatternKey::Sumifs {
        sheet: None,
        sum_column: 2,
        criteria_pairs: vec![CriteriaPair {
            column: 1,
            criteria: CriteriaValue::CellReference(CellReferenceIndex {
                sheet: 0,
                row: -1,
                column: 2,
            }),
        }],
    };
    match pattern.validate() {
        Err(PatternError::CellOutOfBounds { .. }) => {}
        _ => panic!("Expected CellOutOfBounds error"),
    }
}

#[test]
fn test_too_many_criteria() {
    let mut criteria_pairs = Vec::new();
    for i in 0..101 {
        criteria_pairs.push(CriteriaPair {
            column: i,
            criteria: CriteriaValue::String(format!("Test{}", i)),
        });
    }

    let pattern = PatternKey::Sumifs {
        sheet: None,
        sum_column: 0,
        criteria_pairs,
    };

    match pattern.validate() {
        Err(PatternError::TooManyCriteria {
            max: 100,
            found: 101,
        }) => {}
        _ => panic!("Expected TooManyCriteria error"),
    }
}

#[test]
fn test_conflict_detection_exact_duplicate() {
    let mut registry = SubstitutionRegistry::new();
    let pattern = simple_sumifs("Test");

    registry.add_substitution(pattern.clone(), 100.0f64.to_bits());

    let close = close_to_registered(&registry, &pattern, 100.0);
    let conflicts = registry.check_conflicts(&pattern, 100.0f64.to_bits(), close);
    assert_eq!(conflicts.len(), 1);
    match &conflicts[0] {
        PatternConflict::ExactDuplicate { value, .. } => {
            assert_eq!(f64::from_bits(*value), 100.0);
        }
        _ => panic!("Expected ExactDuplicate conflict"),
    }
}

#[test]
fn test_conflict_detection_same_pattern_different_values() {
    let mut registry = SubstitutionRegistry::new();
    let pattern = simple_sumifs("Test");

    registry.add_substitution(pattern.clone(), 100.0f64.to_bits());

    let close = close_to_registered(&registry, &pattern, 200.0);
    let conflicts = registry.check_conflicts(&pattern, 200.0f64.to_bits(), close);
    assert_eq!(conflicts.len(), 1);
    match &conflicts[0] {
        PatternConflict::SamePatternDifferentValues { value1, value2, .. } => {
            assert_eq!(f64::from_bits(*value1), 100.0);
            assert_eq!(f64::from_bits(*value2), 200.0);
        }
        _ => panic!("Expected SamePatternDifferentValues conflict"),
    }
}

#[test]
fn test_conflict_detection_subset_superset() {
    let mut registry = SubstitutionRegistry::new();

    let superset_pattern = PatternKey::Sumifs {
        sheet: None,
        sum_column: 2,
        criteria_pairs: vec![
            CriteriaPair {
                column: 1,
                criteria: CriteriaValue::String("Active".to_string()),
            },
            CriteriaPair {
                column: 3,
                criteria: CriteriaValue::Number(key(100.0)),
            },
        ],
    };
    let subset_pattern = PatternKey::Sumifs {
        sheet: None,
        sum_column: 2,
        criteria_pairs: vec![CriteriaPair {
            column: 1,
            criteria: CriteriaValue::String("Active".to_string()),
        }],
    };

    registry.add_substitution(superset_pattern.clone(), 200.0f64.to_bits());

    let close = close_to_registered(&registry, &subset_pattern, 100.0);
    let conflicts = registry.check_conflicts(&subset_pattern, 100.0f64.to_bits(), close);
    assert_eq!(conflicts.len(), 1);
    match &conflicts[0] {
        PatternConflict::SubsetSuperset {
            subset_value,
            superset_value,
            ..
        } => {
            assert_eq!(f64::from_bits(*subset_value), 100.0);
            assert_eq!(f64::from_bits(*superset_value), 200.0);
        }
        _ => panic!("Expected SubsetSuperset conflict"),
    }
}

#[test]
fn test_conflict_resolution_error() {
    let mut registry = SubstitutionRegistry::new();
    let pattern = simple_sumifs("Test");

    registry.add_substitution(pattern.clone(), 100.0f64.to_bits());

    let close = close_to_registered(&registry, &pattern, 200.0);
    let result = registry.add_substitution_with_conflict_check(
        pattern,
        200.0f64.to_bits(),
        ConflictResolution::Error,
        close,
        &number_texts(&[100.0, 200.0]),
    );

    assert!(result.is_err());
}

#[test]
fn test_conflict_resolution_overwrite() {
    let mut registry = SubstitutionRegistry::new();
    let pattern = simple_sumifs("Test");

    registry.add_substitution(pattern.clone(), 100.0f64.to_bits());
    assert_eq!(registry.len(), 1);

    let close = close_to_registered(&registry, &pattern, 200.0);
    let result = registry.add_substitution_with_conflict_check(
        pattern.clone(),
        200.0f64.to_bits(),
        ConflictResolution::OverwriteExisting,
        close,
        &number_texts(&[100.0, 200.0]),
    );

    assert!(result.is_ok());
    assert_eq!(registry.len(), 1);
    assert_eq!(as_f64(registry.get_substitution(&pattern)), Some(200.0));
}

#[test]
fn test_conflict_resolution_keep_existing() {
    let mut registry = SubstitutionRegistry::new();
    let pattern = simple_sumifs("Test");

    registry.add_substitution(pattern.clone(), 100.0f64.to_bits());

    let close = close_to_registered(&registry, &pattern, 200.0);
    let result = registry.add_substitution_with_conflict_check(
        pattern.clone(),
        200.0f64.to_bits(),
        ConflictResolution::KeepExisting,
        close,
        &number_texts(&[100.0, 200.0]),
    );

    assert!(result.is_ok());
    let conflicts = result.unwrap();
    assert_eq!(conflicts.len(), 1);
    assert_eq!(as_f64(registry.get_substitution(&pattern)), Some(100.0));
}

#[test]
fn test_conflict_resolution_warn_only() {
    let mut registry = SubstitutionRegistry::new();
    let pattern = simple_sumifs("Test");

    registry.add_substitution(pattern.clone(), 100.0f64.to_bits());

    let close = close_to_registered(&registry, &pattern, 200.0);
    let result = registry.add_substitution_with_conflict_check(
        pattern.clone(),
        200.0f64.to_bits(),
        ConflictResolution::WarnOnly,
        close,
        &number_texts(&[100.0, 200.0]),
    );

    assert!(result.is_ok());
    let conflicts = result.unwrap();
    assert_eq!(conflicts.len(), 1);
    assert_eq!(as_f64(registry.get_substitution(&pattern)), Some(200.0));
}

#[test]
fn test_enhanced_pattern_extraction_with_errors() {
    // SUMIFS(D:D,F:F)
    let ast = call(
        Function::Sumifs,
        vec![column_range(None, 4, false), column_range(None, 6, false)],
    );
    let result = PatternKey::try_from_node(&ast);
    match result {
        Err(PatternError::InvalidArgumentCount { .. }) => {}
        _ => panic!("Expected InvalidArgumentCount error"),
    }

    // SUMIFS(D:D,F:F,"Test",G:G)
    let ast = call(
        Function::Sumifs,
        vec![
            column_range(None, 4, false),
            column_range(None, 6, false),
            text("Test"),
            column_range(None, 7, false),
        ],
    );
    let result = PatternKey::try_from_node(&ast);
    match result {
        Err(PatternError::InvalidArgumentCount { .. }) => {}
        _ => panic!("Expected InvalidArgumentCount error"),
    }
}

#[test]
fn test_pattern_error_display() {
    let error = PatternError::EmptyCriteria;
    assert_eq!(
        error.to_string(),
        "Pattern must contain at least one criteria pair"
    );

    let error = PatternError::TooManyCriteria {
        max: 100,
        found: 150,
    };
    assert_eq!(
        error.to_string(),
        "Too many criteria pairs: found 150, maximum supported is 100"
    );

    let error = PatternError::InvalidColumn { column: -5 };
    assert_eq!(error.to_string(), "Invalid column index: -5 (must be >= 0)");

    let error = PatternError::DuplicateColumn { column: 3 };
    assert_eq!(error.to_string(), "Duplicate criteria column: 3");

    let error = PatternError::MultiColumnRange { start: 1, end: 5 };
    assert_eq!(
        error.to_string(),
        "Multi-column ranges not supported: columns 1 to 5"
    );
}

#[test]
fn test_multi_criteria_patterns() {
    let mut criteria_pairs = Vec::new();
    for i in 0..50 {
        criteria_pairs.push(CriteriaPair {
            column: i,
            criteria: CriteriaValue::String(format!("Criteria{}", i)),
        });
    }

    let pattern = PatternKey::Sumifs {
        sheet: Some("MultiSheet".to_string()),
        sum_column: 1000,
        criteria_pairs,
    };

    assert!(pattern.validate().is_ok());

    let mut builder = PatternKey::sumifs().sheet("TestSheet").sum_column(5);

    for i in 0..10 {
        builder = builder.criteria_string(i * 2, &format!("Value{}", i));
    }

    let built_pattern = builder.build().unwrap();
    assert!(built_pattern.validate().is_ok());

    match built_pattern {
        PatternKey::Sumifs { criteria_pairs, .. } => {
            assert_eq!(criteria_pairs.len(), 10);
        }
        _ => panic!("Expected Sumifs pattern"),
    }
}

#[test]
fn test_countifs_builder() {
    let pattern = PatternKey::countifs()
        .sheet("TestSheet")
        .criteria_string(6, "Active")
        .criteria_number(8, 100.0f64.to_bits())
        .build()
        .unwrap();

    match pattern {
        PatternKey::Countifs {
            sheet,
            criteria_pairs,
        } => {
            assert_eq!(sheet, Some("TestSheet".to_string()));
            assert_eq!(criteria_pairs.len(), 2);

            assert_eq!(criteria_pairs[0].column, 6);
            assert_eq!(
                criteria_pairs[0].criteria,
                CriteriaValue::String("Active".to_string())
            );

            assert_eq!(criteria_pairs[1].column, 8);
            assert_eq!(criteria_pairs[1].criteria, CriteriaValue::Number(key(100.0)));
        }
        _ => panic!("Expected Countifs pattern"),
    }
}

#[test]
fn test_countifs_builder_missing_criteria() {
    let pattern = PatternKey::countifs().sheet("TestSheet").build();

    assert!(pattern.is_none());
}

#[test]
fn test_averageifs_builder() {
    let pattern = PatternKey::averageifs()
        .sheet("DataSheet")
        .average_column(4)
        .criteria_string(6, "Electronics")
        .criteria_number(8, 2023.0f64.to_bits())
        .build()
        .unwrap();

    match pattern {
        PatternKey::Averageifs {
            sheet,
            average_column,
            criteria_pairs,
        } => {
            assert_eq!(sheet, Some("DataSheet".to_string()));
            assert_eq!(average_column, 4);
            assert_eq!(criteria_pairs.len(), 2);

            assert_eq!(criteria_pairs[0].column, 6);
            assert_eq!(
                criteria_pairs[0].criteria,
                CriteriaValue::String("Electronics".to_string())
            );

            assert_eq!(criteria_pairs[1].column, 8);
            assert_eq!(criteria_pairs[1].criteria, CriteriaValue::Number(key(2023.0)));
        }
        _ => panic!("Expected Averageifs pattern"),
    }
}

#[test]
fn test_averageifs_builder_missing_average_column() {
    let pattern = PatternKey::averageifs()
        .sheet("TestSheet")
        .criteria_string(6, "Test")
        .build();

    assert!(pattern.is_none());
}

// COUNTIFS($A:$A,"Active",$B:$B,">100")
#[test]
fn test_from_node_countifs() {
    let ast = call(
        Function::Countifs,
        vec![
            column_range(None, 1, true),
            text("Active"),
            column_range(None, 2, true),
            text(">100"),
        ],
    );

    if let Some(pattern) = PatternKey::from_node(&ast) {
        match pattern {
            PatternKey::Countifs {
                sheet,
                criteria_pairs,
            } => {
                assert_eq!(sheet, None);
                assert_eq!(criteria_pairs.len(), 2);
                assert_eq!(criteria_pairs[0].column, 1);
                assert_eq!(criteria_pairs[1].column, 2);
            }
            _ => panic!("Expected Countifs pattern"),
        }
    } else {
        panic!("Failed to extract pattern");
    }
}

// AVERAGEIFS($C:$C,$A:$A,"Active",$B:$B,">100")
#[test]
fn test_from_node_averageifs() {
    let ast = call(
        Function::Averageifs,
        vec![
            column_range(None, 3, true),
            column_range(None, 1, true),
            text("Active"),
            column_range(None, 2, true),
            text(">100"),
        ],
    );

    if let Some(pattern) = PatternKey::from_node(&ast) {
        match pattern {
            PatternKey::Averageifs {
                sheet,
                average_column,
                criteria_pairs,
            } => {
                assert_eq!(sheet, None);
                assert_eq!(average_column, 3);
                assert_eq!(criteria_pairs.len(), 2);
                assert_eq!(criteria_pairs[0].column, 1);
                assert_eq!(criteria_pairs[1].column, 2);
            }
            _ => panic!("Expected Averageifs pattern"),
        }
    } else {
        panic!("Failed to extract pattern");
    }
}

#[test]
fn test_pattern_validation_countifs() {
    let valid_pattern = PatternKey::Countifs {
        sheet: Some("TestSheet".to_string()),
        criteria_pairs: vec![
            CriteriaPair {
                column: 1,
                criteria: CriteriaValue::String("Active".to_string()),
            },
            CriteriaPair {
                column: 2,
                criteria: CriteriaValue::Number(key(100.0)),
            },
        ],
    };
    assert!(valid_pattern.validate().is_ok());

    let empty_pattern = PatternKey::Countifs {
        sheet: None,
        criteria_pairs: vec![],
    };
    assert!(matches!(
        empty_pattern.validate(),
        Err(PatternError::EmptyCriteria)
    ));

    let duplicate_pattern = PatternKey::Countifs {
        sheet: None,
        criteria_pairs: vec![
            CriteriaPair {
                column: 1,
                criteria: CriteriaValue::String("A".to_string()),
            },
            CriteriaPair {
                column: 1,
                criteria: CriteriaValue::String("B".to_string()),
            },
        ],
    };
    assert!(matches!(
        duplicate_pattern.validate(),
        Err(PatternError::DuplicateColumn { column: 1 })
    ));
}

#[test]
fn test_pattern_validation_averageifs() {
    let valid_pattern = PatternKey::Averageifs {
        sheet: Some("TestSheet".to_string()),
        average_column: 3,
        criteria_pairs: vec![
            CriteriaPair {
                column: 1,
                criteria: CriteriaValue::String("Active".to_string()),
            },
            CriteriaPair {
                column: 2,
                criteria: CriteriaValue::Number(key(100.0)),
            },
        ],
    };
    assert!(valid_pattern.validate().is_ok());

    let invalid_pattern = PatternKey::Averageifs {
        sheet: None,
        average_column: -1,
        criteria_pairs: vec![CriteriaPair {
            column: 1,
            criteria: CriteriaValue::String("Test".to_string()),
        }],
    };
    assert!(matches!(
        invalid_pattern.validate(),
        Err(PatternError::InvalidColumn { column: -1 })
    ));
}

#[test]
fn test_pattern_conflicts_different_function_types() {
    let mut registry = SubstitutionRegistry::new();

    let sumifs_pattern = PatternKey::Sumifs {
        sheet: Some("Sheet1".to_string()),
        sum_column: 3,
        criteria_pairs: vec![CriteriaPair {
            column: 1,
            criteria: CriteriaValue::String("Active".to_string()),
        }],
    };
    let countifs_pattern = PatternKey::Countifs {
        sheet: Some("Sheet1".to_string()),
        criteria_pairs: vec![CriteriaPair {
            column: 1,
            criteria: CriteriaValue::String("Active".to_string()),
        }],
    };
    let averageifs_pattern = PatternKey::Averageifs {
        sheet: Some("Sheet1".to_string()),
        average_column: 3,
        criteria_pairs: vec![CriteriaPair {
            column: 1,
            criteria: CriteriaValue::String("Active".to_string()),
        }],
    };

    registry.add_substitution(sumifs_pattern.clone(), 1000.0f64.to_bits());
    registry.add_substitution(countifs_pattern.clone(), 50.0f64.to_bits());
    registry.add_substitution(averageifs_pattern.clone(), 20.0f64.to_bits());

    assert_eq!(registry.len(), 3);
    assert_eq!(as_f64(registry.get_substitution(&sumifs_pattern)), Some(1000.0));
    assert_eq!(as_f64(registry.get_substitution(&countifs_pattern)), Some(50.0));
    assert_eq!(as_f64(registry.get_substitution(&averageifs_pattern)), Some(20.0));
}

#[test]
fn test_vlookup_builder_basic() {
    let pattern = PatternKey::vlookup()
        .sheet("ProductData")
        .lookup_string("Widget A")
        .table_range(1, 1, 100, 5)
        .column_index(3)
        .exact_match(true)
        .build()
        .unwrap();

    match pattern {
        PatternKey::Vlookup {
            sheet,
            lookup_value,
            table_range,
            column_index,
            exact_match,
        } => {
            assert_eq!(sheet, Some("ProductData".to_string()));
            assert_eq!(lookup_value, LookupValue::String("Widget A".to_string()));
            assert_eq!(table_range.start_row, 1);
            assert_eq!(table_range.start_column, 1);
            assert_eq!(table_range.end_row, 100);
            assert_eq!(table_range.end_column, 5);
            assert_eq!(column_index, 3);
            assert!(exact_match);
        }
        _ => panic!("Expected VLOOKUP pattern"),
    }
}

#[test]
fn test_vlookup_builder_with_number() {
    let pattern = PatternKey::vlookup()
        .lookup_number(123.45f64.to_bits())
        .table_range(1, 1, 50, 3)
        .column_index(2)
        .build()
        .unwrap();

    match pattern {
        PatternKey::Vlookup {
            lookup_value,
            exact_match,
            ..
        } => {
            assert_eq!(lookup_value, LookupValue::Number(key(123.45)));
            assert!(!exact_match);
        }
        _ => panic!("Expected VLOOKUP pattern"),
    }
}

#[test]
fn test_vlookup_builder_with_cell_reference() {
    let pattern = PatternKey::vlookup()
        .lookup_cell_ref(0, 5, 2)
        .table_range_with_sheet("LookupTable", 1, 1, 100, 4)
        .column_index(4)
        .exact_match(false)
        .build()
        .unwrap();

    match pattern {
        PatternKey::Vlookup {
            sheet,
            lookup_value,
            table_range,
            ..
        } => {
            assert_eq!(sheet, None);
            assert_eq!(
                lookup_value,
                LookupValue::CellReference(CellReferenceIndex {
                    sheet: 0,
                    row: 5,
                    column: 2
                })
            );
            assert_eq!(table_range.sheet, Some("LookupTable".to_string()));
        }
        _ => panic!("Expected VLOOKUP pattern"),
    }
}

fn data_table(end_row: i32, end_column: i32) -> TableRange {
    TableRange {
        sheet: Some("Data".to_string()),
        start_row: 1,
        start_column: 1,
        end_row,
        end_column,
    }
}

#[test]
fn test_vlookup_validation() {
    let valid_pattern = PatternKey::Vlookup {
        sheet: Some("Data".to_string()),
        lookup_value: LookupValue::String("Test".to_string()),
        table_range: data_table(10, 3),
        column_index: 2,
        exact_match: true,
    };
    assert!(valid_pattern.validate().is_ok());

    let invalid_pattern = PatternKey::Vlookup {
        sheet: Some("Data".to_string()),
        lookup_value: LookupValue::String("Test".to_string()),
        table_range: data_table(10, 3),
        column_index: 5,
        exact_match: true,
    };
    assert!(invalid_pattern.validate().is_err());

    let zero_column_pattern = PatternKey::Vlookup {
        sheet: Some("Data".to_string()),
        lookup_value: LookupValue::String("Test".to_string()),
        table_range: data_table(10, 3),
        column_index: 0,
        exact_match: true,
    };
    assert!(zero_column_pattern.validate().is_err());
}

#[test]
fn test_vlookup_conflict_detection() {
    let mut registry = SubstitutionRegistry::new();

    let pattern1 = PatternKey::Vlookup {
        sheet: Some("Data".to_string()),
        lookup_value: LookupValue::String("Product A".to_string()),
        table_range: data_table(100, 3),
        column_index: 2,
        exact_match: true,
    };
    let pattern2 = PatternKey::Vlookup {
        sheet: Some("Data".to_string()),
        lookup_value: LookupValue::String("Product A".to_string()),
        table_range: data_table(50, 3),
        column_index: 2,
        exact_match: true,
    };

    registry.add_substitution(pattern1.clone(), 100.0f64.to_bits());

    let close = close_to_registered(&registry, &pattern2, 200.0);
    let conflicts = registry.check_conflicts(&pattern2, 200.0f64.to_bits(), close);
    assert!(!conflicts.is_empty());

    match &conflicts[0] {
        PatternConflict::SubsetSuperset {
            subset_pattern,
            superset_pattern,
            ..
        } => {
            assert_eq!(subset_pattern, &pattern2);
            assert_eq!(superset_pattern, &pattern1);
        }
        _ => panic!("Expected subset/superset conflict"),
    }
}

#[test]
fn test_vlookup_different_function_types_no_conflict() {
    let mut registry = SubstitutionRegistry::new();

    let vlookup_pattern = PatternKey::Vlookup {
        sheet: Some("Data".to_string()),
        lookup_value: LookupValue::String("Test".to_string()),
        table_range: data_table(10, 3),
        column_index: 2,
        exact_match: true,
    };
    let sumifs_pattern = PatternKey::Sumifs {
        sheet: Some("Data".to_string()),
        sum_column: 2,
        criteria_pairs: vec![CriteriaPair {
            column: 1,
            criteria: CriteriaValue::String("Test".to_string()),
        }],
    };

    registry.add_substitution(vlookup_pattern.clone(), 1000.0f64.to_bits());
    registry.add_substitution(sumifs_pattern.clone(), 500.0f64.to_bits());

    assert_eq!(registry.len(), 2);
    assert_eq!(as_f64(registry.get_substitution(&vlookup_pattern)), Some(1000.0));
    assert_eq!(as_f64(registry.get_substitution(&sumifs_pattern)), Some(500.0));
}

#[test]
fn test_vlookup_lookup_value_convenience_constructors() {
    assert_eq!(
        LookupValue::string("test"),
        LookupValue::String("test".to_string())
    );
    assert_eq!(
        LookupValue::number(42.0f64.to_bits()),
        LookupValue::Number(key(42.0))
    );
    assert_eq!(
        LookupValue::cell_ref(0, 1, 2),
        LookupValue::CellReference(CellReferenceIndex {
            sheet: 0,
            row: 1,
            column: 2
        })
    );
}

#[test]
fn test_table_range_overlap_detection() {
    let registry = SubstitutionRegistry::new();

    let range1 = TableRange {
        sheet: Some("Sheet1".to_string()),
        start_row: 1,
        start_column: 1,
        end_row: 10,
        end_column: 5,
    };
    let range2 = TableRange {
        sheet: Some("Sheet1".to_string()),
        start_row: 5,
        start_column: 3,
        end_row: 15,
        end_column: 8,
    };

    assert!(registry.do_table_ranges_overlap(&range1, &range2));

    let range3 = TableRange {
        sheet: Some("Sheet1".to_string()),
        start_row: 20,
        start_column: 1,
        end_row: 30,
        end_column: 5,
    };

    assert!(!registry.do_table_ranges_overlap(&range1, &range3));

    let range4 = TableRange {
        sheet: Some("Sheet2".to_string()),
        start_row: 1,
        start_column: 1,
        end_row: 10,
        end_column: 5,
    };

    assert!(!registry.do_table_ranges_overlap(&range1, &range4));
}
