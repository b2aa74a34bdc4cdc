use meril_cat::config::Config;
use meril_cat::mood::{select_mood, AiMoodState, Mood, MoodPatChes, Personality};

fn patches() -> MoodPatChes {
    MoodPatChes {
        neutral: "neutral".to_string(),
        depressed: "depressed".to_string(),
        bored: "bored".to_string(),
        happy: "happy".to_string(),
        excited: "excited".to_string(),
        shy: "shy".to_string(),
        angry: "angry".to_string(),
        arrogant: "arrogant".to_string(),
    }
}

fn state(pleasure: i8, arousal: i8, dominance: i8) -> AiMoodState {
    AiMoodState { pleasure, arousal, dominance }
}

#[test]
fn mood_rules_in_order() {
    let p = patches();
    assert_eq!(p.select_patch(state(0, 0, 0)), "neutral");
    assert_eq!(p.select_patch(state(-51, 31, 0)), "angry");
    assert_eq!(p.select_patch(state(41, 0, -31)), "shy");
    assert_eq!(p.select_patch(state(41, 51, 0)), "excited");
    assert_eq!(p.select_patch(state(41, 50, -30)), "happy");
    assert_eq!(p.select_patch(state(-31, -21, 0)), "depressed");
    assert_eq!(p.select_patch(state(-31, 0, 0)), "arrogant");
    assert_eq!(p.select_patch(state(-50, 31, 0)), "arrogant");
    assert_eq!(p.select_patch(state(0, -51, 0)), "bored");
    assert_eq!(select_mood(state(40, -50, 0)), Mood::Neutral);
}

#[test]
fn prompt_joins_parts_with_the_patch() {
    let p = Personality {
        core: "core".to_string(),
        context_scenario: "scene".to_string(),
        format_rules: "rules".to_string(),
        mood_patches: patches(),
    };
    assert_eq!(p.get_prompt(state(100, 100, 100)), "core\nscene\nrules\nexcited");
}

#[test]
fn config_defaults_and_setters() {
    let mut c = Config::get_or_init();
    assert_eq!(c.bot_id(), 0);
    assert_eq!(c.root_id(), 0);
    assert_eq!(c.websocket_addr(), "0.0.0.0:3000");
    assert_eq!(c.http_addr(), "0.0.0.0:3001");
    assert_eq!(c.ai_deepseek_token(), "");
    assert_eq!(c.napcat_http_token(), "");
    assert_eq!(c.napcat_webui_token(), "");
    assert_eq!(c.napcat_websocket_token(), "");
    c.set_ai_deepseek_token("deepseek-test-token");
    c.set_websocket_addr("127.0.0.1:9000");
    assert_eq!(c.ai_deepseek_token(), "deepseek-test-token");
    assert_eq!(c.websocket_addr(), "127.0.0.1:9000");
    assert_eq!(c.ai_gemini_token(), "");
}
