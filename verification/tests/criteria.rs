use maple_config::criteria::{char_is_space, parse_criteria, to_lower, RankCriterion};
use maple_config::loader::load_text;
use maple_config::schema::MatcherConfig;

fn criteria(tiebreak: &str) -> Vec<RankCriterion> {
    MatcherConfig { tiebreak: tiebreak.to_string() }.rank_criteria()
}

#[test]
fn default_tiebreak_lists_four_criteria() {
    assert_eq!(
        MatcherConfig::default().rank_criteria(),
        vec![
            RankCriterion::Score,
            RankCriterion::NegativeBegin,
            RankCriterion::NegativeEnd,
            RankCriterion::NegativeLength,
        ]
    );
}

#[test]
fn document_with_tiebreak_and_cursorword() {
    let (config, error) = load_text(
        "[matcher]\ntiebreak = \"score,-begin,-end,-length\"\n\n[plugin.cursorword]\nenable = true\n",
    );
    assert_eq!(error, None);
    assert!(config.plugin.cursorword.enable);
    assert!(config.plugin.git.enable);
    assert!(!config.plugin.ctags.enable);
    assert!(!config.plugin.colorizer.enable);
    assert!(!config.plugin.linter.enable);
    assert!(!config.plugin.markdown.enable);
    assert_eq!(
        config.matcher.rank_criteria(),
        vec![
            RankCriterion::Score,
            RankCriterion::NegativeBegin,
            RankCriterion::NegativeEnd,
            RankCriterion::NegativeLength,
        ]
    );
}

#[test]
fn every_token_names_its_criterion() {
    assert_eq!(parse_criteria("score"), Some(RankCriterion::Score));
    assert_eq!(parse_criteria("-score"), Some(RankCriterion::NegativeScore));
    assert_eq!(parse_criteria("begin"), Some(RankCriterion::Begin));
    assert_eq!(parse_criteria("-begin"), Some(RankCriterion::NegativeBegin));
    assert_eq!(parse_criteria("end"), Some(RankCriterion::End));
    assert_eq!(parse_criteria("-end"), Some(RankCriterion::NegativeEnd));
    assert_eq!(parse_criteria("length"), Some(RankCriterion::Length));
    assert_eq!(parse_criteria("-length"), Some(RankCriterion::NegativeLength));
}

#[test]
fn tokens_are_read_in_any_case() {
    assert_eq!(parse_criteria("SCORE"), Some(RankCriterion::Score));
    assert_eq!(parse_criteria("-Begin"), Some(RankCriterion::NegativeBegin));
    assert_eq!(parse_criteria("eNd"), Some(RankCriterion::End));
    assert_eq!(parse_criteria("-LENGTH"), Some(RankCriterion::NegativeLength));
}

#[test]
fn other_tokens_name_nothing() {
    for token in [
        "", "-", "scor", "scores", "score ", " score", "--score", "+score", "- score", "begin-",
        "len", "lengthy", "s\u{212a}ore", "ſcore", "ｓｃｏｒｅ", "score\0",
    ] {
        assert_eq!(parse_criteria(token), None, "{:?}", token);
    }
}

#[test]
fn tokens_keep_their_order_and_may_repeat() {
    assert_eq!(
        criteria("-length,score,score,begin"),
        vec![
            RankCriterion::NegativeLength,
            RankCriterion::Score,
            RankCriterion::Score,
            RankCriterion::Begin,
        ]
    );
}

#[test]
fn space_around_a_token_does_not_count() {
    assert_eq!(
        criteria("  score ,\t-begin\n, \u{a0}end\u{3000},\u{2003}length\u{85}"),
        vec![
            RankCriterion::Score,
            RankCriterion::NegativeBegin,
            RankCriterion::End,
            RankCriterion::Length,
        ]
    );
    assert_eq!(criteria("sc ore"), vec![]);
    assert_eq!(criteria("- end"), vec![]);
}

#[test]
fn unknown_tokens_are_passed_over() {
    assert_eq!(
        criteria("score,rank,-end,,length!"),
        vec![RankCriterion::Score, RankCriterion::NegativeEnd]
    );
}

#[test]
fn tiebreak_of_unknown_tokens_alone_gives_no_criterion() {
    assert_eq!(criteria("rank,size"), vec![]);
    assert_eq!(criteria("score;-begin"), vec![]);
}

#[test]
fn empty_tiebreak_gives_no_criterion() {
    assert_eq!(criteria(""), vec![]);
    assert_eq!(criteria(","), vec![]);
    assert_eq!(criteria(" , ,"), vec![]);
    assert_eq!(criteria("   "), vec![]);
}

#[test]
fn commas_at_the_ends_are_harmless() {
    assert_eq!(criteria(",score"), vec![RankCriterion::Score]);
    assert_eq!(criteria("score,"), vec![RankCriterion::Score]);
    assert_eq!(criteria(",,-score,,"), vec![RankCriterion::NegativeScore]);
}

#[test]
fn rank_criteria_agrees_with_split_trim_and_parse() {
    for tiebreak in [
        "score,-begin,-end,-length",
        " Score , begin,END ,x, -Length ",
        ",,",
        "length",
        "a,b,c",
        "-score,\u{2028}-end\u{2029}",
    ] {
        let expected: Vec<RankCriterion> =
            tiebreak.split(',').filter_map(|token| parse_criteria(token.trim())).collect();
        assert_eq!(criteria(tiebreak), expected, "{:?}", tiebreak);
    }
}

#[test]
fn white_space_is_what_std_says() {
    for code in 0..0x3100u32 {
        if let Some(c) = char::from_u32(code) {
            assert_eq!(char_is_space(c), c.is_whitespace(), "{:?}", c);
        }
    }
    assert!(!char_is_space('\u{feff}'));
    assert!(!char_is_space('\u{200b}'));
}

#[test]
fn small_letters_are_those_of_the_alphabet() {
    for code in 0..0x250u32 {
        if let Some(c) = char::from_u32(code) {
            assert_eq!(to_lower(c), c.to_ascii_lowercase(), "{:?}", c);
        }
    }
    assert_eq!(to_lower('A'), 'a');
    assert_eq!(to_lower('Z'), 'z');
    assert_eq!(to_lower('@'), '@');
    assert_eq!(to_lower('['), '[');
    assert_eq!(to_lower('É'), 'É');
}
