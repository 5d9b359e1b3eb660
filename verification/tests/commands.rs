use rusty_bot::args::Args;
use rusty_bot::embed::{Color, Embed, EmbedField, Requester};
use rusty_bot::fun::{eightball, eightball_answers, eightball_reply};
use rusty_bot::general::{
    botinfo, decimal_text, feedback, feedback_answer, invite, join_roles, pinging_text,
    pong_text, say, userinfo, userinfo_target, Feedback, Membership, UserProfile,
    REPORT_CHANNEL_ID, SUGGESTION_CHANNEL_ID,
};
use rusty_bot::help::{describe_command, help, listing, suggest, HelpAnswer};
use rusty_bot::image::{aibeach, beach_pictures, picture_reply, shiba, shiba_query};
use rusty_bot::moderation::{
    delete, delete_range_text, deleted_text, removal_failure_text, removal_report,
    removal_request, DeletePlan, Removal, RemovalRequest,
};
use rusty_bot::registry::Registry;

const BLURPLE: Color = Color { red: 0x58, green: 0x65, blue: 0xF2 };
const ORANGE: Color = Color { red: 255, green: 165, blue: 0 };

fn ann() -> Requester {
    Requester { name: "ann".to_string(), face: "https://cdn/ann.png".to_string() }
}

fn field(name: &str, value: &str, inline: bool) -> EmbedField {
    EmbedField { name: name.to_string(), value: value.to_string(), inline }
}

fn card(title: &str) -> Embed {
    Embed {
        title: title.to_string(),
        description: None,
        color: BLURPLE,
        fields: vec![],
        footer: None,
        footer_icon: None,
        image: None,
        thumbnail: None,
    }
}

fn signed(mut c: Embed, footer: &str) -> Embed {
    c.footer = Some(footer.to_string());
    c.footer_icon = Some("https://cdn/ann.png".to_string());
    c
}

fn barry() -> UserProfile {
    UserProfile {
        tag: "barry#0001".to_string(),
        name: "barry".to_string(),
        id: 42,
        bot: false,
        face: "https://cdn/barry.png".to_string(),
        created_at: "2020-01-01".to_string(),
    }
}

#[test]
fn embed_builder_sets_each_part() {
    let mut c = Embed::new("T");
    assert_eq!(c, card("T"));
    c.describe("D");
    c.field("a", "1", true);
    c.field("b", "2", false);
    c.sign("F", "I");
    c.picture("P");
    c.small_picture("S");
    c.set_color(ORANGE);
    assert_eq!(
        c,
        Embed {
            title: "T".to_string(),
            description: Some("D".to_string()),
            color: ORANGE,
            fields: vec![field("a", "1", true), field("b", "2", false)],
            footer: Some("F".to_string()),
            footer_icon: Some("I".to_string()),
            image: Some("P".to_string()),
            thumbnail: Some("S".to_string()),
        }
    );
}

#[test]
fn ping_texts() {
    assert_eq!(pinging_text(), "Pinging...");
    assert_eq!(pong_text(0), "Pong! Latency: 0 ms");
    assert_eq!(pong_text(7), "Pong! Latency: 7 ms");
    assert_eq!(pong_text(1234567890), "Pong! Latency: 1234567890 ms");
    assert_eq!(
        pong_text(u128::MAX),
        "Pong! Latency: 340282366920938463463374607431768211455 ms"
    );
}

#[test]
fn decimal_numerals() {
    assert_eq!(decimal_text(0), "0");
    assert_eq!(decimal_text(9), "9");
    assert_eq!(decimal_text(10), "10");
    assert_eq!(decimal_text(1005), "1005");
    assert_eq!(decimal_text(u64::MAX), "18446744073709551615");
}

#[test]
fn say_repeats_or_falls_silent() {
    assert_eq!(say(&Args::new("hello  there ")), "hello  there ");
    assert_eq!(say(&Args::new("   hi")), "hi");
    assert_eq!(say(&Args::new("")), "*(silence)*");
    assert_eq!(say(&Args::new("  \t ")), "*(silence)*");
}

#[test]
fn role_names_are_joined_without_the_empty_ones() {
    let names = |v: &[&str]| v.iter().map(|s| s.to_string()).collect::<Vec<String>>();
    assert_eq!(join_roles(&names(&[])), "");
    assert_eq!(join_roles(&names(&["mod"])), "mod");
    assert_eq!(join_roles(&names(&["mod", "", "vip"])), "mod, vip");
    assert_eq!(join_roles(&names(&["", "", "a", "b", ""])), "a, b");
    assert_eq!(join_roles(&names(&["", ""])), "");
}

#[test]
fn userinfo_in_a_direct_message() {
    let mut expected = card("User Info for barry#0001");
    expected.thumbnail = Some("https://cdn/barry.png".to_string());
    expected.fields = vec![
        field("User", "barry", true),
        field("ID", "42", true),
        field("Bot", "false", true),
        field("Account Created", "2020-01-01", true),
        field("Server Joined", "N/A", true),
    ];
    let expected = signed(expected, "Requested by ann");
    assert_eq!(userinfo(Some(&barry()), &Membership::Direct, &ann()), Ok(expected));
}

#[test]
fn userinfo_of_a_member() {
    let mut user = barry();
    user.bot = true;
    let membership = Membership::Member {
        joined_at: Some("2021-02-03".to_string()),
        display_name: "Baz".to_string(),
        roles: Some(vec!["mod".to_string(), String::new(), "vip".to_string()]),
    };
    let mut expected = card("User Info for barry#0001");
    expected.thumbnail = Some("https://cdn/barry.png".to_string());
    expected.fields = vec![
        field("User", "barry", true),
        field("ID", "42", true),
        field("Bot", "true", true),
        field("Account Created", "2020-01-01", true),
        field("Server Joined", "2021-02-03", true),
        field("Nickname", "Baz", true),
        field("Roles", "mod, vip", true),
    ];
    let expected = signed(expected, "Requested by ann");
    assert_eq!(userinfo(Some(&user), &membership, &ann()), Ok(expected));
    let unknown_guild = Membership::Member {
        joined_at: None,
        display_name: "Baz".to_string(),
        roles: None,
    };
    let shown = userinfo(Some(&user), &unknown_guild, &ann()).unwrap();
    assert_eq!(shown.fields.len(), 6);
    assert_eq!(shown.fields[4], field("Server Joined", "N/A", true));
    assert_eq!(shown.fields[5], field("Nickname", "Baz", true));
}

#[test]
fn userinfo_without_the_member() {
    assert_eq!(
        userinfo(Some(&barry()), &Membership::Unavailable, &ann()),
        Err("Failed to fetch member information.".to_string())
    );
}

#[test]
fn userinfo_without_the_user() {
    let member = Membership::Member {
        joined_at: None,
        display_name: "Baz".to_string(),
        roles: None,
    };
    for membership in [Membership::Direct, Membership::Unavailable, member] {
        assert_eq!(
            userinfo(None, &membership, &ann()),
            Err("Failed to fetch user information.".to_string())
        );
    }
}

#[test]
fn userinfo_target_reads_a_user_or_says_why_not() {
    let mut args = Args::new("<@42> and more");
    assert_eq!(userinfo_target(&mut args), Ok(42));
    assert_eq!(args.rest(), "and more");
    assert_eq!(userinfo_target(&mut Args::new("123")), Ok(123));
    assert_eq!(
        userinfo_target(&mut Args::new("hello")),
        Err("Invalid user provided.".to_string())
    );
    assert_eq!(userinfo_target(&mut Args::new("")), Err("Invalid user provided.".to_string()));
    assert_eq!(
        userinfo_target(&mut Args::new("-5")),
        Err("Invalid user provided.".to_string())
    );
}

#[test]
fn botinfo_card() {
    let mut expected = card("Bot Info");
    expected.thumbnail = Some("https://cdn/bot.png".to_string());
    expected.fields = vec![
        field("Owner", "<@497682001239736329>", true),
        field("Name", "Rusty", true),
        field("ID", "1143479237882417282", true),
        field(
            "Description",
            "A small project of mine written in Rust hence the name Rusty ",
            false,
        ),
        field("Statistics", "Server Count: 3\nUser Count: 120", false),
        field("Version", "`0.15`", true),
        field("Website GitHub", "[Website GitHub Repository](https://example.com)", true),
        field("Bot GitHub", "[GitHub Repository](https://example.com)", true),
        field("Recent Updates", "`Added Info commands`", false),
    ];
    let expected = signed(expected, "Requested by ann");
    assert_eq!(
        botinfo("Rusty", 1143479237882417282, "https://cdn/bot.png", 3, 120, &ann()),
        expected
    );
}

#[test]
fn invite_card() {
    let mut expected = card("Bot Invite Link");
    expected.description = Some("Click [here](https://discord.com/api/oauth2/authorize?client_id=1143479237882417282&permissions=8&scope=bot) to invite the bot to your server.".to_string());
    let expected = signed(expected, "Command Requested by: ann");
    assert_eq!(invite(&ann()), expected);
}

#[test]
fn feedback_goes_to_its_channel() {
    let (channel, shown) = feedback(Feedback::Report, &Args::new("  it broke  again"), &ann());
    assert_eq!(channel, 1145565222875181136);
    assert_eq!(channel, REPORT_CHANNEL_ID);
    let mut expected = card("New Issue Report");
    expected.description = Some("it broke  again".to_string());
    assert_eq!(shown, signed(expected, "Reported by: ann"));
    let (channel, shown) = feedback(Feedback::Suggestion, &Args::new("more shibas"), &ann());
    assert_eq!(channel, 1145567850896044122);
    assert_eq!(channel, SUGGESTION_CHANNEL_ID);
    let mut expected = card("New Suggestion");
    expected.description = Some("more shibas".to_string());
    assert_eq!(shown, signed(expected, "Suggested by: ann"));
}

#[test]
fn feedback_answers() {
    assert_eq!(
        feedback_answer(Feedback::Report, true),
        "Your issue has been reported in <#1145565222875181136>. Thank you for your feedback!"
    );
    assert_eq!(
        feedback_answer(Feedback::Suggestion, true),
        "Your suggestion has been sent to <#1145567850896044122>. Thank you for your feedback!"
    );
    assert_eq!(feedback_answer(Feedback::Report, false), "Failed to find the designated channel.");
    assert_eq!(
        feedback_answer(Feedback::Suggestion, false),
        "Failed to find the designated channel."
    );
}

#[test]
fn removal_requests() {
    assert_eq!(
        removal_request(Removal::Kick, &mut Args::new("<@42>  being   rude "), true),
        Ok(RemovalRequest { user_id: 42, reason: "being   rude ".to_string() })
    );
    assert_eq!(
        removal_request(Removal::Ban, &mut Args::new("42"), true),
        Ok(RemovalRequest { user_id: 42, reason: String::new() })
    );
    assert_eq!(
        removal_request(Removal::Kick, &mut Args::new("barry rude"), true),
        Err("Invalid user provided for kick command".to_string())
    );
    assert_eq!(
        removal_request(Removal::Ban, &mut Args::new(""), true),
        Err("Invalid user provided for ban command".to_string())
    );
}

#[test]
fn removals_need_a_guild() {
    assert_eq!(
        removal_request(Removal::Kick, &mut Args::new("<@42> rude"), false),
        Err("Failed to kick user: not in a server".to_string())
    );
    assert_eq!(
        removal_request(Removal::Ban, &mut Args::new("nobody"), false),
        Err("Failed to ban user: not in a server".to_string())
    );
}

#[test]
fn removal_cards_and_failures() {
    let request = RemovalRequest { user_id: 42, reason: "rude".to_string() };
    let mut expected = card("User Kicked");
    expected.description = Some("Kicked user: 42\nReason: rude".to_string());
    assert_eq!(removal_report(Removal::Kick, &request, &ann()), signed(expected, "Requested by ann"));
    let mut expected = card("User Banned");
    expected.description = Some("Banned user: 42\nReason: rude".to_string());
    assert_eq!(removal_report(Removal::Ban, &request, &ann()), signed(expected, "Requested by ann"));
    assert_eq!(removal_failure_text(Removal::Kick, "no"), "Failed to kick user: no");
    assert_eq!(removal_failure_text(Removal::Ban, "no"), "Failed to ban user: no");
}

#[test]
fn delete_plans() {
    assert_eq!(delete(&mut Args::new("5")), DeletePlan::Delete { count: 5, fetch: 6 });
    assert_eq!(delete(&mut Args::new("1")), DeletePlan::Delete { count: 1, fetch: 2 });
    assert_eq!(delete(&mut Args::new("100 now")), DeletePlan::Delete { count: 100, fetch: 101 });
    assert_eq!(delete(&mut Args::new("0")), DeletePlan::OutOfRange);
    assert_eq!(delete(&mut Args::new("101")), DeletePlan::OutOfRange);
    assert_eq!(delete(&mut Args::new("18446744073709551615")), DeletePlan::OutOfRange);
    assert_eq!(delete(&mut Args::new("")), DeletePlan::NotANumber);
    assert_eq!(delete(&mut Args::new("-1")), DeletePlan::NotANumber);
    assert_eq!(delete(&mut Args::new("many")), DeletePlan::NotANumber);
    assert_eq!(
        delete_range_text(),
        "You can only delete between 1 and 100 messages at a time."
    );
    assert_eq!(deleted_text(5), "Successfully deleted 5 messages.");
}

#[test]
fn eightball_answers_a_question() {
    let answers = eightball_answers();
    assert_eq!(answers.len(), 44);
    assert_eq!(answers[0], "Yes");
    assert_eq!(answers[43], "I ain't telling");
    for _ in 0..50 {
        let shown = eightball(&mut Args::new("will it rain"), &ann()).unwrap();
        assert_eq!(shown.title, "8-Ball Response");
        assert_eq!(shown.fields.len(), 2);
        assert_eq!(shown.fields[0], field("Your Question :speaking_head:", "will", false));
        assert_eq!(shown.fields[1].name, "8-Ball Says :8ball:");
        assert!(answers.contains(&shown.fields[1].value.as_str()));
        assert_eq!(shown.footer, Some("Command Requested by: ann".to_string()));
        assert_eq!(shown, eightball_reply("will", &shown.fields[1].value, &ann()));
    }
    let mut expected = card("8-Ball Response");
    expected.fields = vec![
        field("Your Question :speaking_head:", "why", false),
        field("8-Ball Says :8ball:", "Maybe", false),
    ];
    let expected = signed(expected, "Command Requested by: ann");
    assert_eq!(eightball_reply("why", "Maybe", &ann()), expected);
}

#[test]
fn eightball_needs_a_question() {
    assert_eq!(
        eightball(&mut Args::new(""), &ann()),
        Err("Invalid input. Usage: `prefix 8ball <question>`".to_string())
    );
    assert_eq!(
        eightball(&mut Args::new("   "), &ann()),
        Err("Invalid input. Usage: `prefix 8ball <question>`".to_string())
    );
}

#[test]
fn aibeach_shows_one_of_the_pictures() {
    let pictures = beach_pictures();
    assert_eq!(pictures.len(), 28);
    assert_eq!(
        pictures[12],
        "https://i.ibb.co/1r056ZX/DALL-E-2022-10-10-11-54-50-extend.png"
    );
    for _ in 0..50 {
        let shown = aibeach(&pictures, &ann()).unwrap();
        assert_eq!(shown.title, "Here's a AI Generated beach image!");
        assert!(pictures.contains(&shown.image.clone().unwrap().as_str()));
        assert_eq!(shown.footer, Some("Requested by ann".to_string()));
    }
    assert_eq!(aibeach(&vec![], &ann()), Err("No images found.".to_string()));
    let mut expected = card("Here's a AI Generated beach image!");
    expected.image = Some("u".to_string());
    let expected = signed(expected, "Requested by ann");
    assert_eq!(aibeach(&vec!["u"], &ann()), Ok(expected.clone()));
    assert_eq!(picture_reply("Here's a AI Generated beach image!", "u", &ann()), expected);
}

#[test]
fn shiba_cases() {
    assert_eq!(
        shiba_query(1, true, true),
        "http://shibe.online/api/shibes?count=1&urls=true&httpsUrls=true"
    );
    assert_eq!(
        shiba_query(25, false, true),
        "http://shibe.online/api/shibes?count=25&urls=false&httpsUrls=true"
    );
    let urls = vec!["https://a/1.jpg".to_string()];
    assert_eq!(shiba(false, &urls, &ann()), Err("Failed to retrieve images.".to_string()));
    assert_eq!(shiba(false, &vec![], &ann()), Err("Failed to retrieve images.".to_string()));
    assert_eq!(shiba(true, &vec![], &ann()), Err("No images found.".to_string()));
    let mut expected = card("Here's a shiba!");
    expected.image = Some("https://a/1.jpg".to_string());
    assert_eq!(shiba(true, &urls, &ann()), Ok(signed(expected, "Requested by ann")));
}

#[test]
fn help_describes_a_command() {
    let registry = Registry::standard();
    let mut expected = card("Command: say");
    expected.color = ORANGE;
    expected.description = Some("Makes the bot say anything".to_string());
    expected.fields = vec![field("Usage", "rsay <message>", true)];
    assert_eq!(help(&registry, &mut Args::new("say now")), HelpAnswer::Card(expected.clone()));
    assert_eq!(describe_command(&registry.commands[1]), expected);
    let mut expected = card("Command: help");
    expected.color = ORANGE;
    expected.description = Some("No description provided.".to_string());
    expected.fields = vec![field("Usage", "No information available.", true)];
    assert_eq!(help(&registry, &mut Args::new(" help")), HelpAnswer::Card(expected));
}

#[test]
fn help_lists_or_finds_nothing() {
    let registry = Registry::standard();
    let listed = match help(&registry, &mut Args::new("  ")) {
        HelpAnswer::Listing(card) => card,
        other => panic!("expected a listing, got {:?}", other),
    };
    assert_eq!(help(&registry, &mut Args::new("")), HelpAnswer::Listing(listed.clone()));
    assert_eq!(listed, listing(&registry, "r"));
    assert_eq!(listed.title, "Commands");
    assert_eq!(listed.color, ORANGE);
    assert_eq!(
        listed.description,
        Some("To get more information about a specific command, use `rhelp <command>`".to_string())
    );
    assert_eq!(listed.fields.len(), 20);
    assert_eq!(listed.fields[0], field("rping", "Shows Latency", false));
    assert_eq!(listed.fields[7], field("rhelp", "No description provided.", false));
    assert_eq!(
        listed.fields[19],
        field("rdelete", "Delete a specified number of messages", false)
    );
    let two = Registry { commands: registry.commands[..2].to_vec() };
    let mut expected = card("Commands");
    expected.color = ORANGE;
    expected.description =
        Some("To get more information about a specific command, use `rhelp <command>`".to_string());
    expected.fields = vec![
        field("!ping", "Shows Latency", false),
        field("!say", "Makes the bot say anything", false),
    ];
    assert_eq!(listing(&two, "!"), expected);
    assert_eq!(
        help(&registry, &mut Args::new("somethingelse")),
        HelpAnswer::NotFound(
            "Command not found. Use `rhelp` to list available commands.".to_string()
        )
    );
}

#[test]
fn help_suggests_the_closest_name() {
    let registry = Registry::standard();
    assert_eq!(
        help(&registry, &mut Args::new("sey")),
        HelpAnswer::Suggestion("Did you mean `say`?".to_string())
    );
    assert_eq!(
        help(&registry, &mut Args::new("bas64")),
        HelpAnswer::Suggestion("Did you mean `base64`?".to_string())
    );
    assert_eq!(
        help(&registry, &mut Args::new("Delete")),
        HelpAnswer::Suggestion("Did you mean `delete`?".to_string())
    );
    assert_eq!(suggest(&registry, "kik"), Some(17));
    assert_eq!(suggest(&registry, "pong"), Some(0));
    assert_eq!(suggest(&registry, "xx"), Some(11));
    assert_eq!(suggest(&registry, "photosynthesis"), None);
    assert_eq!(suggest(&Registry { commands: vec![] }, "say"), None);
}
