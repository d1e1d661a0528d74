use meufchrer::deploy::deployments;
use meufchrer::handler::Handler;
use meufchrer::model::ChannelId;
use meufchrer::uptime::duration_display;

fn shown(secs: u64) -> Option<String> {
    duration_display(secs)
}

fn text(s: &str) -> Option<String> {
    Some(s.to_string())
}

#[test]
fn under_a_minute_has_no_text() {
    assert_eq!(shown(0), None);
    assert_eq!(shown(1), None);
    assert_eq!(shown(59), None);
}

#[test]
fn minutes_and_seconds() {
    assert_eq!(shown(60), text("1 mins, 0 secs"));
    assert_eq!(shown(61), text("1 mins, 1 secs"));
    assert_eq!(shown(3599), text("59 mins, 59 secs"));
}

#[test]
fn hours_and_minutes() {
    assert_eq!(shown(3600), text("1 hours, 0 mins"));
    assert_eq!(shown(3661), text("1 hours, 1 mins"));
    assert_eq!(shown(86399), text("23 hours, 59 mins"));
}

#[test]
fn days_and_hours() {
    assert_eq!(shown(86400), text("1 days, 0 hours"));
    assert_eq!(shown(90061), text("1 days, 1 hours"));
    assert_eq!(shown(450000), text("5 days, 5 hours"));
    assert_eq!(shown(604799), text("6 days, 23 hours"));
}

#[test]
fn weeks_and_days() {
    assert_eq!(shown(604800), text("1 weeks, 3 days"));
    assert_eq!(shown(950400), text("1 weeks, 3 days"));
    assert_eq!(shown(2419199), text("3 weeks, 3 days"));
}

#[test]
fn months_and_weeks() {
    assert_eq!(shown(2419200), text("1 months, 0 weeks"));
    assert_eq!(shown(4665600), text("1 months, 3 weeks"));
    assert_eq!(shown(29030399), text("11 months, 3 weeks"));
}

#[test]
fn years_and_months() {
    assert_eq!(shown(29030400), text("1 years, 0 months"));
    assert_eq!(shown(104025600), text("3 years, 7 months"));
    assert_eq!(shown(u64::MAX), text("635428518852 years, 11 months"));
}

#[test]
fn fragment_with_tag() {
    assert_eq!(
        deployments(Some("v1.2.3"), "0123abcd", "1 mins, 0 secs"),
        "<p>tag: v1.2.3</p><p>hash: <a href=\"https://github.com/nanai10a/meufchrer/tree/0123abcd\">0123abcd</a></p><p>uptime: 1 mins, 0 secs</p>"
    );
}

#[test]
fn fragment_without_tag() {
    assert_eq!(
        deployments(None, "ff", "0.250 secs"),
        "<p>tag: {no tag}</p><p>hash: <a href=\"https://github.com/nanai10a/meufchrer/tree/ff\">ff</a></p><p>uptime: 0.250 secs</p>"
    );
}

#[test]
fn ready_with_tag() {
    let handler = Handler { record_channel_id: ChannelId(100), notify_channel_id: ChannelId(200) };
    let startup = handler.ready("0123456789abcdef", "0123456", Some("v1.0.0"));
    assert_eq!(startup.marker.channel_id, ChannelId(100));
    assert_eq!(startup.marker.content, "```\ndeployed: 0123456789abcdef\n```");
    assert_eq!(startup.activity_name, "{activity_name}");
    assert_eq!(startup.activity_state, "Running nanai10a/meufchrer @ v1.0.0 (0123456)");
}

#[test]
fn ready_without_tag() {
    let handler = Handler { record_channel_id: ChannelId(1), notify_channel_id: ChannelId(2) };
    let startup = handler.ready("abc", "ab", None);
    assert_eq!(startup.marker.channel_id, ChannelId(1));
    assert_eq!(startup.marker.content, "```\ndeployed: abc\n```");
    assert_eq!(startup.activity_state, "Running nanai10a/meufchrer @ {no tag} (ab)");
}
