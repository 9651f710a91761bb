use nikos_discord_bot::bot::{plan_silly_commands, refresh_jobs, CacheSlot, Data, SillyCommand};
use nikos_discord_bot::cache::PostCache;
use nikos_discord_bot::privacy::{answer_of_lowered, consent_answer, message_answer, privacy_step, ConfirmedUsers, ConsentEvent, PrivacyStep};
use nikos_discord_bot::reply::{cache_reply, ping_reply, post_reply, Reply};
use nikos_discord_bot::types::{Config, PostData, PostProvider, TagInfo};

fn config() -> Config {
    Config { authorized_users: vec![1], bot_channels: vec![100, 200] }
}

#[test]
fn bot_channel_membership() {
    let c = config();
    assert!(c.is_bot_channel(100));
    assert!(c.is_bot_channel(200));
    assert!(!c.is_bot_channel(300));
}

#[test]
fn outside_bot_channels_answers_are_private() {
    let mut confirmed = ConfirmedUsers::new();
    assert_eq!(privacy_step(&config(), &confirmed, 300, 7), PrivacyStep::Private);
    confirmed.insert(7);
    assert_eq!(privacy_step(&config(), &confirmed, 300, 7), PrivacyStep::Private);
}

#[test]
fn unconfirmed_user_in_bot_channel_is_asked() {
    let confirmed = ConfirmedUsers::new();
    assert_eq!(privacy_step(&config(), &confirmed, 100, 7), PrivacyStep::AskConsent);
}

#[test]
fn consent_is_remembered() {
    let mut confirmed = ConfirmedUsers::new();
    let private = confirmed.conclude(7, true);
    assert!(!private);
    assert!(confirmed.contains(7));
    assert_eq!(privacy_step(&config(), &confirmed, 100, 7), PrivacyStep::Public);
    assert_eq!(privacy_step(&config(), &confirmed, 100, 8), PrivacyStep::AskConsent);
}

#[test]
fn refusal_is_not_remembered() {
    let mut confirmed = ConfirmedUsers::new();
    let private = confirmed.conclude(7, false);
    assert!(private);
    assert!(!confirmed.contains(7));
    assert_eq!(privacy_step(&config(), &confirmed, 200, 7), PrivacyStep::AskConsent);
}

#[test]
fn answers_never_forget_earlier_consent() {
    let mut confirmed = ConfirmedUsers::new();
    confirmed.conclude(1, true);
    confirmed.conclude(2, false);
    confirmed.conclude(1, false);
    assert!(confirmed.contains(1));
    assert!(!confirmed.contains(2));
}

#[test]
fn chat_answers() {
    assert_eq!(message_answer("y"), Some(true));
    assert_eq!(message_answer("YES"), Some(true));
    assert_eq!(message_answer("Yes"), Some(true));
    assert_eq!(message_answer("n"), Some(false));
    assert_eq!(message_answer("No"), Some(false));
    assert_eq!(message_answer("yes please"), None);
    assert_eq!(message_answer(""), None);
    assert_eq!(message_answer(" y"), None);
}

#[test]
fn consent_events() {
    assert_eq!(consent_answer(&ConsentEvent::Button("yes".to_string())), Some(true));
    assert_eq!(consent_answer(&ConsentEvent::Button("no".to_string())), Some(false));
    assert_eq!(consent_answer(&ConsentEvent::Button("YES".to_string())), Some(false));
    assert_eq!(consent_answer(&ConsentEvent::Message("Y".to_string())), Some(true));
    assert_eq!(consent_answer(&ConsentEvent::Message("nope".to_string())), None);
    assert_eq!(consent_answer(&ConsentEvent::Timeout), Some(false));
}

#[test]
fn ping_answers_pong_privately() {
    match ping_reply() {
        Reply::Text { content, ephemeral } => {
            assert_eq!(content, "Pong!!!");
            assert!(ephemeral);
        }
        _ => panic!("expected text"),
    }
}

fn sample_post() -> PostData {
    PostData::from_parts(
        "https://example.org/1.png".to_string(),
        1,
        Some(TagInfo {
            general: vec!["smile".to_string()],
            meta: vec![],
            artists: vec!["a".to_string(), "b".to_string()],
            characters: vec![],
            copyrights: vec![],
        }),
    )
}

#[test]
fn post_reply_shows_post() {
    let p = sample_post();
    match post_reply(Some(&p), false) {
        Reply::Embed { author, description, image, ephemeral } => {
            assert_eq!(author, "a, b");
            assert_eq!(description, "```ansi\n\x1b[34msmile\x1b[0m \x1b[31ma b\x1b[0m ```");
            assert_eq!(image, "https://example.org/1.png");
            assert!(!ephemeral);
        }
        _ => panic!("expected embed"),
    }
}

#[test]
fn post_reply_without_post_says_cache_empty() {
    match post_reply(None, false) {
        Reply::Text { content, ephemeral } => {
            assert_eq!(content, "Cache empty, please wait a moment!");
            assert!(ephemeral);
        }
        _ => panic!("expected text"),
    }
}

#[test]
fn cache_reply_of_empty_cache() {
    let c = PostCache::empty("teto".to_string(), 10, PostProvider::Safebooru);
    assert!(matches!(cache_reply(&c, false), Reply::Text { ephemeral: true, .. }));
}

#[test]
fn cache_reply_of_filled_cache_keeps_privacy() {
    let mut c = PostCache::empty("teto".to_string(), 10, PostProvider::Safebooru);
    c.fill::<String>(Ok(vec![sample_post()])).unwrap();
    match cache_reply(&c, true) {
        Reply::Embed { image, ephemeral, .. } => {
            assert_eq!(image, "https://example.org/1.png");
            assert!(ephemeral);
        }
        _ => panic!("expected embed"),
    }
}

#[test]
fn data_starts_with_empty_caches() {
    let d = Data::new(config());
    assert_eq!(d.config.bot_channels, vec![100, 200]);
    assert_eq!(d.rei_cache.query, "rei");
    assert_eq!(d.teto_cache.query, "teto");
    assert_eq!(d.spicyteto_cache.query, "teto rating:explicit");
    assert_eq!(d.rei_cache.limit, 10);
    assert_eq!(d.spicyteto_cache.provider, PostProvider::Rule34);
    assert_eq!(d.teto_cache.provider, PostProvider::Safebooru);
    assert!(d.rei_cache.posts.is_empty() && d.teto_cache.posts.is_empty() && d.spicyteto_cache.posts.is_empty());
    assert!(!d.confirmed_users.contains(1));
}

#[test]
fn refresh_round() {
    let jobs = refresh_jobs();
    assert_eq!(jobs.len(), 3);
    assert_eq!(jobs[0].slot, CacheSlot::Rei);
    assert_eq!(jobs[0].query, "adachi_rei sort:random -ai* rating:general");
    assert_eq!(jobs[1].slot, CacheSlot::Teto);
    assert_eq!(jobs[1].provider, PostProvider::Safebooru);
    assert_eq!(jobs[2].slot, CacheSlot::SpicyTeto);
    assert_eq!(jobs[2].provider, PostProvider::Rule34);
    assert_eq!(jobs[2].query, "kasane_teto sort:random score:>=10 -ai* -scat -fart -video");
    assert!(jobs.iter().all(|j| j.limit == 100));
}

#[test]
fn all_commands_with_credentials_and_fastfetch() {
    let plan = plan_silly_commands("key", "42", true);
    assert_eq!(plan.registered, vec![SillyCommand::Teto, SillyCommand::Rei, SillyCommand::SpicyTeto, SillyCommand::Fastfetch]);
    assert!(plan.failed.is_empty());
}

#[test]
fn missing_credential_leaves_out_spicyteto() {
    let plan = plan_silly_commands("key", "", true);
    assert_eq!(plan.registered, vec![SillyCommand::Teto, SillyCommand::Rei, SillyCommand::Fastfetch]);
    assert_eq!(plan.failed, vec![SillyCommand::SpicyTeto]);
    let plan = plan_silly_commands("", "42", false);
    assert_eq!(plan.registered, vec![SillyCommand::Teto, SillyCommand::Rei]);
    assert_eq!(plan.failed, vec![SillyCommand::SpicyTeto, SillyCommand::Fastfetch]);
}

#[test]
fn every_command_in_exactly_one_list() {
    for (k, u, f) in [("", "", false), ("k", "", true), ("k", "u", false), ("k", "u", true)] {
        let plan = plan_silly_commands(k, u, f);
        for c in [SillyCommand::Teto, SillyCommand::Rei, SillyCommand::SpicyTeto, SillyCommand::Fastfetch] {
            let n = plan.registered.iter().filter(|x| **x == c).count() + plan.failed.iter().filter(|x| **x == c).count();
            assert_eq!(n, 1);
        }
    }
}

#[test]
fn a_no_is_private_but_forgets_nobody() {
    let mut confirmed = ConfirmedUsers::new();
    assert!(!confirmed.conclude(3, true));
    assert!(confirmed.conclude(3, false));
    assert!(confirmed.contains(3));
    assert!(confirmed.conclude(4, false));
    assert!(!confirmed.contains(4));
}

#[test]
fn lowered_answers() {
    assert_eq!(answer_of_lowered("y"), Some(true));
    assert_eq!(answer_of_lowered("yes"), Some(true));
    assert_eq!(answer_of_lowered("n"), Some(false));
    assert_eq!(answer_of_lowered("no"), Some(false));
    assert_eq!(answer_of_lowered("YES"), None);
    assert_eq!(answer_of_lowered("yess"), None);
}
