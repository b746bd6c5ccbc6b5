use codex_usage_taskbar_monitor::radar::{
    counts_run_cost, efficiency_cell_key, model_display_name, recommendations_from_insights,
    sanitize_label, slot_kind, tally_first_runs, RadarDataError, RadarGroup, RadarInsights, RadarItem,
    SlotKind,
};

#[derive(Clone, Debug, PartialEq)]
struct Recommendation {
    model: String,
    effort: String,
    iq: f64,
    average_cost_usd: f64,
    valid_tasks: u32,
}

fn rec(model: &str, effort: &str, iq: f64, cost: f64, samples: u32) -> Recommendation {
    Recommendation {
        model: model.to_string(),
        effort: effort.to_string(),
        iq,
        average_cost_usd: cost,
        valid_tasks: samples,
    }
}

fn item(slot: Option<&str>, recommendation: Option<Recommendation>) -> RadarItem<Recommendation> {
    RadarItem {
        slot: slot.map(|s| s.to_string()),
        recommendation,
    }
}

fn group(key: &str, items: Vec<RadarItem<Recommendation>>) -> RadarGroup<Recommendation> {
    RadarGroup {
        key: key.to_string(),
        items,
    }
}

#[test]
fn selects_current_daily_development_recommendations() {
    let insights = RadarInsights {
        schema: 1,
        groups: vec![
            group(
                "hard_problems",
                vec![item(Some("value"), Some(rec("gpt-5.6-sol", "max", 103.1, 9.04, 0)))],
            ),
            group(
                "daily_development",
                vec![
                    item(Some("speed"), Some(rec("gpt-5.6-sol", "medium", 91.07, 3.742, 112))),
                    item(Some("smart"), Some(rec("gpt-5.6-sol", "xhigh", 105.8, 6.19, 0))),
                ],
            ),
        ],
    };

    let recommendations = recommendations_from_insights(Some(insights)).unwrap();

    let speed = recommendations.speed.unwrap();
    assert_eq!(speed.model, "gpt-5.6-sol");
    assert_eq!(speed.effort, "medium");
    assert_eq!(speed.valid_tasks, 112);
    assert_eq!(recommendations.smart.unwrap().effort, "xhigh");
}

#[test]
fn keeps_untagged_daily_development_recommendations_unlabeled() {
    let insights = RadarInsights {
        schema: 1,
        groups: vec![group(
            "daily_development",
            vec![
                item(None, Some(rec("gpt-5.5", "high", 95.09, 3.663656, 112))),
                item(None, Some(rec("gpt-5.6-luna", "max", 95.09, 0.47011, 112))),
            ],
        )],
    };

    let recommendations = recommendations_from_insights(Some(insights)).unwrap();

    assert!(recommendations.speed.is_none());
    assert!(recommendations.smart.is_none());
    assert_eq!(recommendations.daily_development.len(), 2);
    assert_eq!(recommendations.daily_development[0].model, "gpt-5.5");
    assert_eq!(recommendations.daily_development[1].model, "gpt-5.6-luna");
}

#[test]
fn falls_back_to_legacy_value_for_speed() {
    let insights = RadarInsights {
        schema: 1,
        groups: vec![group(
            "daily_development",
            vec![item(Some("value"), Some(rec("gpt-5.6-sol", "high", 89.73, 4.998, 112)))],
        )],
    };

    let recommendations = recommendations_from_insights(Some(insights)).unwrap();

    assert_eq!(recommendations.speed.unwrap().effort, "high");
    assert!(recommendations.smart.is_none());
}

#[test]
fn accepts_a_single_current_radar_slot() {
    let insights = RadarInsights {
        schema: 1,
        groups: vec![group(
            "daily_development",
            vec![item(Some("smart"), Some(rec("gpt-5.5", "xhigh", 100.45, 5.737, 0)))],
        )],
    };

    let recommendations = recommendations_from_insights(Some(insights)).unwrap();

    assert!(recommendations.speed.is_none());
    assert_eq!(recommendations.smart.unwrap().model, "gpt-5.5");
}

#[test]
fn rejects_unsupported_or_incomplete_radar_data() {
    let unsupported: RadarInsights<Recommendation> = RadarInsights {
        schema: 2,
        groups: vec![],
    };
    assert_eq!(
        recommendations_from_insights(Some(unsupported)),
        Err(RadarDataError::UnsupportedSchema)
    );

    let missing_supported_slot: RadarInsights<Recommendation> = RadarInsights {
        schema: 1,
        groups: vec![group("daily_development", vec![])],
    };
    assert_eq!(
        recommendations_from_insights(Some(missing_supported_slot)),
        Err(RadarDataError::RecommendationUnavailable)
    );
}

#[test]
fn every_radar_error_has_its_input() {
    assert_eq!(
        recommendations_from_insights::<Recommendation>(None),
        Err(RadarDataError::InvalidJson)
    );
    let no_group = RadarInsights {
        schema: 1,
        groups: vec![group("hard_problems", vec![item(None, Some(rec("a", "b", 1.0, 1.0, 1)))])],
    };
    assert_eq!(
        recommendations_from_insights(Some(no_group)),
        Err(RadarDataError::RecommendationUnavailable)
    );
    let invalid = RadarInsights {
        schema: 1,
        groups: vec![group("daily_development", vec![item(Some("speed"), None)])],
    };
    assert_eq!(
        recommendations_from_insights(Some(invalid)),
        Err(RadarDataError::InvalidData)
    );
    assert_eq!(RadarDataError::InvalidJson.message(), "invalid JSON");
    assert_eq!(RadarDataError::UnsupportedSchema.message(), "unsupported schema");
    assert_eq!(RadarDataError::InvalidData.message(), "invalid recommendation data");
    assert_eq!(
        RadarDataError::RecommendationUnavailable.message(),
        "recommendation unavailable"
    );
}

#[test]
fn later_entries_of_a_filled_slot_are_ignored_even_when_invalid() {
    let insights = RadarInsights {
        schema: 1,
        groups: vec![
            group("daily_development", vec![
                item(Some("speed"), Some(rec("first", "high", 90.0, 1.0, 1))),
                item(Some("speed"), None),
                item(Some("unknown"), None),
                item(Some("value"), Some(rec("legacy", "low", 90.0, 1.0, 1))),
            ]),
            group("daily_development", vec![item(Some("speed"), None)]),
        ],
    };
    let recommendations = recommendations_from_insights(Some(insights)).unwrap();
    assert_eq!(recommendations.speed.unwrap().model, "first");
    assert!(recommendations.smart.is_none());
    assert!(recommendations.daily_development.is_empty());
}

#[test]
fn maps_known_models_and_sanitizes_unknown_labels() {
    assert_eq!(model_display_name("gpt-5.6-sol"), "Sol");
    assert_eq!(model_display_name(" custom\u{0007}model "), "custommodel");
}

#[test]
fn display_names_and_labels() {
    assert_eq!(model_display_name("gpt-5.6-terra"), "Terra");
    assert_eq!(model_display_name("gpt-5.6-luna"), "Luna");
    assert_eq!(model_display_name("gpt-5.5"), "GPT-5.5");
    assert_eq!(model_display_name(" \u{0001}\t "), "Unknown");
    assert_eq!(sanitize_label(""), None);
    assert_eq!(sanitize_label("\u{3000}a b\u{2028}"), Some("a b".to_string()));
    assert_eq!(sanitize_label("x\u{0085}y"), Some("xy".to_string()));
    let long: String = "é".repeat(70);
    assert_eq!(sanitize_label(&long), Some("é".repeat(64)));
    assert_eq!(sanitize_label(&long).unwrap().chars().count(), 64);
}

#[test]
fn slot_tags() {
    assert_eq!(slot_kind(&None), SlotKind::Untagged);
    assert_eq!(slot_kind(&Some("speed".to_string())), SlotKind::Speed);
    assert_eq!(slot_kind(&Some("smart".to_string())), SlotKind::Smart);
    assert_eq!(slot_kind(&Some("value".to_string())), SlotKind::LegacyValue);
    assert_eq!(slot_kind(&Some("Speed".to_string())), SlotKind::Other);
}

#[test]
fn efficiency_bookkeeping() {
    assert_eq!(efficiency_cell_key("task-0", "gpt-5.6-sol", "high"), "task-0|gpt-5.6-sol|high");
    assert!(counts_run_cost("high", None));
    assert!(!counts_run_cost("ultra", None));
    assert!(!counts_run_cost("ultra", Some(false)));
    assert!(counts_run_cost("ultra", Some(true)));
    assert_eq!(tally_first_runs(&vec![]), None);
    assert_eq!(tally_first_runs(&vec![None, None]), None);
    assert_eq!(
        tally_first_runs(&vec![Some(true), Some(true), Some(true), Some(false), None]),
        Some((3, 4))
    );
}
