use interaction_options::can_resolve;
use interaction_options::get_value;
use interaction_options::CommandOption;
use interaction_options::Interaction;
use interaction_options::InteractionCustomGet;
use interaction_options::OptionKind;
use interaction_options::ResolvedValue;
use serenity::model::channel::Attachment;
use serenity::model::channel::ChannelType;
use serenity::model::channel::PartialChannel;
use serenity::model::guild::PartialMember;
use serenity::model::guild::Role;
use serenity::model::id::AttachmentId;
use serenity::model::id::ChannelId;
use serenity::model::id::RoleId;
use serenity::model::id::UserId;
use serenity::model::user::User;

fn with_value(name: &str, kind: OptionKind, value: ResolvedValue) -> CommandOption {
    CommandOption { name: name.to_string(), kind, options: Vec::new(), resolved: Some(value) }
}

fn without_value(name: &str, kind: OptionKind, options: Vec<CommandOption>) -> CommandOption {
    CommandOption { name: name.to_string(), kind, options, resolved: None }
}

fn string_option(name: &str, value: &str) -> CommandOption {
    with_value(name, OptionKind::String, ResolvedValue::String(value.to_string()))
}

fn integer_option(name: &str, value: i64) -> CommandOption {
    with_value(name, OptionKind::Integer, ResolvedValue::Integer(value))
}

fn subcommand(name: &str, options: Vec<CommandOption>) -> CommandOption {
    without_value(name, OptionKind::SubCommand, options)
}

fn group(name: &str, options: Vec<CommandOption>) -> CommandOption {
    without_value(name, OptionKind::SubCommandGroup, options)
}

fn payload(options: Vec<CommandOption>) -> Interaction {
    Interaction { options }
}

fn some_user(id: u64, name: &str) -> User {
    let mut user = User::default();
    user.id = UserId(id);
    user.name = name.to_string();
    user
}

fn some_member(nick: &str) -> PartialMember {
    let json = format!(
        "{{\"deaf\":false,\"joined_at\":null,\"mute\":true,\"nick\":\"{}\",\"roles\":[\"11\",\"12\"],\
         \"premium_since\":null,\"guild_id\":\"5\",\"user\":null,\"permissions\":null}}",
        nick
    );
    serde_json::from_str(&json).expect("a partial member")
}

fn some_channel(id: u64, name: &str) -> PartialChannel {
    let json = format!(
        "{{\"id\":\"{}\",\"name\":\"{}\",\"type\":0,\"permissions\":null}}",
        id, name
    );
    serde_json::from_str(&json).expect("a partial channel")
}

fn some_role(id: u64, name: &str) -> Role {
    let json = format!(
        "{{\"id\":\"{}\",\"guild_id\":\"5\",\"color\":255,\"hoist\":false,\"managed\":false,\
         \"mentionable\":true,\"name\":\"{}\",\"permissions\":\"0\",\"position\":4}}",
        id, name
    );
    serde_json::from_str(&json).expect("a role")
}

fn some_attachment(id: u64, filename: &str) -> Attachment {
    let json = format!(
        "{{\"id\":\"{}\",\"filename\":\"{}\",\"height\":null,\"proxy_url\":\"https://proxy.invalid/f\",\
         \"size\":1234,\"url\":\"https://cdn.invalid/f\",\"width\":null,\"content_type\":\"text/plain\"}}",
        id, filename
    );
    serde_json::from_str(&json).expect("an attachment")
}

#[test]
fn empty_payload_yields_nothing() {
    let interaction = payload(Vec::new());
    assert!(can_resolve(&interaction, "anything", OptionKind::String));
    assert_eq!(interaction.get_string("anything"), None);
    assert!(interaction.get_subcommand().is_none());
    assert!(interaction.get_subcommand_group().is_none());
}

#[test]
fn flat_payload_searches_top_level() {
    let interaction = payload(vec![string_option("a", "x"), integer_option("b", 1)]);
    assert!(can_resolve(&interaction, "a", OptionKind::String));
    assert!(can_resolve(&interaction, "b", OptionKind::Integer));
    assert_eq!(interaction.get_string("a"), Some("x".to_string()));
    assert_eq!(interaction.get_integer("b"), Some(1));
}

#[test]
fn flat_payload_does_not_descend_into_children() {
    let mut first = integer_option("n", 1);
    first.options = vec![string_option("deep", "y")];
    let interaction = payload(vec![first, string_option("s", "x")]);
    assert!(can_resolve(&interaction, "deep", OptionKind::String));
    assert_eq!(interaction.get_string("deep"), None);
    assert_eq!(interaction.get_string("s"), Some("x".to_string()));
    assert_eq!(interaction.get_integer("n"), Some(1));
}

#[test]
fn subcommand_in_first_place_hides_its_siblings() {
    let interaction = payload(vec![
        subcommand("go", vec![string_option("a", "inside")]),
        string_option("a", "outside"),
        string_option("b", "sibling"),
    ]);
    assert!(can_resolve(&interaction, "a", OptionKind::String));
    assert!(can_resolve(&interaction, "b", OptionKind::String));
    assert_eq!(interaction.get_string("a"), Some("inside".to_string()));
    assert_eq!(interaction.get_string("b"), None);
}

#[test]
fn siblings_of_a_first_subcommand_do_not_change_the_answer() {
    let alone = payload(vec![subcommand("go", vec![integer_option("n", 4)])]);
    let crowded = payload(vec![
        subcommand("go", vec![integer_option("n", 4)]),
        integer_option("n", 5),
        group("g", vec![subcommand("s", vec![integer_option("n", 6)])]),
    ]);
    assert_eq!(alone.get_integer("n"), Some(4));
    assert_eq!(crowded.get_integer("n"), Some(4));
    assert_eq!(alone.get_integer("m"), crowded.get_integer("m"));
}

#[test]
fn subcommand_after_a_leaf_is_not_entered() {
    let interaction = payload(vec![
        string_option("a", "top"),
        subcommand("go", vec![string_option("b", "inside")]),
    ]);
    assert_eq!(interaction.get_string("a"), Some("top".to_string()));
    assert_eq!(interaction.get_string("b"), None);
}

#[test]
fn group_in_first_place_searches_its_first_childs_children() {
    let interaction = payload(vec![
        group(
            "g",
            vec![
                subcommand("one", vec![integer_option("x", 1)]),
                subcommand("two", vec![integer_option("x", 2), integer_option("y", 9)]),
            ],
        ),
        integer_option("x", 3),
    ]);
    assert!(can_resolve(&interaction, "x", OptionKind::Integer));
    assert!(can_resolve(&interaction, "y", OptionKind::Integer));
    assert_eq!(interaction.get_integer("x"), Some(1));
    assert_eq!(interaction.get_integer("y"), None);
}

#[test]
fn first_child_of_a_group_need_not_be_a_subcommand() {
    let mut first_child = string_option("leaf", "v");
    first_child.options = vec![integer_option("k", 5)];
    let interaction = payload(vec![group("g", vec![first_child])]);
    assert!(can_resolve(&interaction, "k", OptionKind::Integer));
    assert_eq!(interaction.get_integer("k"), Some(5));
    assert_eq!(interaction.get_string("leaf"), None);
}

#[test]
fn name_under_another_kind_is_absent() {
    let interaction = payload(vec![string_option("n", "7")]);
    assert!(can_resolve(&interaction, "n", OptionKind::Integer));
    assert_eq!(interaction.get_integer("n"), None);
    assert_eq!(interaction.get_bool("n"), None);
    assert_eq!(interaction.get_number("n"), None);
    assert!(interaction.get_user("n").is_none());
    assert!(interaction.get_channel("n").is_none());
    assert!(interaction.get_role("n").is_none());
    assert!(interaction.get_attachment("n").is_none());
    assert_eq!(interaction.get_string("n"), Some("7".to_string()));
}

#[test]
fn value_of_another_shape_than_the_kind_is_absent() {
    let odd = with_value("n", OptionKind::Integer, ResolvedValue::String("7".to_string()));
    let interaction = payload(vec![odd]);
    assert!(can_resolve(&interaction, "n", OptionKind::Integer));
    assert_eq!(interaction.get_integer("n"), None);
    assert_eq!(interaction.get_string("n"), None);
    match get_value(&interaction, "n", OptionKind::Integer) {
        Some(ResolvedValue::String(text)) => assert_eq!(text, "7"),
        other => panic!("unexpected value: {:?}", other),
    }
}

#[test]
fn first_option_of_matching_kind_and_name_wins() {
    let interaction = payload(vec![
        integer_option("a", 1),
        string_option("a", "first"),
        string_option("a", "second"),
        integer_option("a", 2),
    ]);
    assert_eq!(interaction.get_string("a"), Some("first".to_string()));
    assert_eq!(interaction.get_integer("a"), Some(1));
}

#[test]
fn names_are_compared_exactly() {
    let interaction = payload(vec![string_option("Name", "upper"), string_option("name", "lower")]);
    assert_eq!(interaction.get_string("name"), Some("lower".to_string()));
    assert_eq!(interaction.get_string("Name"), Some("upper".to_string()));
    assert_eq!(interaction.get_string("nam"), None);
    assert_eq!(interaction.get_string("name "), None);
    assert_eq!(interaction.get_string(""), None);
}

#[test]
fn non_ascii_names_are_found() {
    let interaction = payload(vec![string_option("größe", "groß"), string_option("grösse", "no")]);
    assert_eq!(interaction.get_string("größe"), Some("groß".to_string()));
    assert_eq!(interaction.get_string("grösse"), Some("no".to_string()));
    assert_eq!(interaction.get_string("grosse"), None);
}

#[test]
fn boolean_values_are_read() {
    let interaction = payload(vec![
        with_value("yes", OptionKind::Boolean, ResolvedValue::Boolean(true)),
        with_value("no", OptionKind::Boolean, ResolvedValue::Boolean(false)),
    ]);
    assert_eq!(interaction.get_bool("yes"), Some(true));
    assert_eq!(interaction.get_bool("no"), Some(false));
    assert_eq!(interaction.get_bool("maybe"), None);
}

#[test]
fn integer_extremes_are_read() {
    let interaction = payload(vec![
        integer_option("low", i64::MIN),
        integer_option("high", i64::MAX),
        integer_option("zero", 0),
    ]);
    assert_eq!(interaction.get_integer("low"), Some(i64::MIN));
    assert_eq!(interaction.get_integer("high"), Some(i64::MAX));
    assert_eq!(interaction.get_integer("zero"), Some(0));
}

#[test]
fn numbers_are_read_bit_for_bit() {
    let interaction = payload(vec![
        with_value("ratio", OptionKind::Number, ResolvedValue::Number(1.5f64.to_bits())),
        with_value("minus_zero", OptionKind::Number, ResolvedValue::Number((-0.0f64).to_bits())),
        with_value("nan", OptionKind::Number, ResolvedValue::Number(f64::NAN.to_bits())),
    ]);
    assert_eq!(interaction.get_number("ratio"), Some(0x3FF8_0000_0000_0000));
    assert_eq!(interaction.get_number("ratio").map(f64::from_bits), Some(1.5));
    assert_eq!(interaction.get_number("minus_zero"), Some(0x8000_0000_0000_0000));
    assert_eq!(interaction.get_number("nan"), Some(f64::NAN.to_bits()));
    assert_eq!(interaction.get_number("absent"), None);
    assert_eq!(interaction.get_integer("ratio"), None);
}

#[test]
fn user_with_member_is_read() {
    let interaction = payload(vec![with_value(
        "who",
        OptionKind::User,
        ResolvedValue::User(some_user(31, "alice"), Some(some_member("al"))),
    )]);
    let (user, member) = interaction.get_user("who").expect("a user");
    assert_eq!(user.id, UserId(31));
    assert_eq!(user.name, "alice");
    assert_eq!(user.discriminator, 1432);
    let member = member.expect("a member");
    assert_eq!(member.nick.as_deref(), Some("al"));
    assert!(member.mute);
    assert_eq!(member.roles, vec![RoleId(11), RoleId(12)]);
}

#[test]
fn second_user_is_not_confused_with_the_first() {
    let interaction = payload(vec![
        with_value("a", OptionKind::User, ResolvedValue::User(some_user(1, "one"), None)),
        with_value("b", OptionKind::User, ResolvedValue::User(some_user(2, "two"), None)),
    ]);
    let (user, member) = interaction.get_user("b").expect("a user");
    assert_eq!(user.id, UserId(2));
    assert_eq!(user.name, "two");
    assert!(member.is_none());
}

#[test]
fn channel_is_read() {
    let interaction = payload(vec![with_value(
        "where",
        OptionKind::Channel,
        ResolvedValue::Channel(some_channel(90, "general")),
    )]);
    let channel = interaction.get_channel("where").expect("a channel");
    assert_eq!(channel.id, ChannelId(90));
    assert_eq!(channel.name.as_deref(), Some("general"));
    assert_eq!(channel.kind, ChannelType::Text);
    assert!(interaction.get_channel("elsewhere").is_none());
}

#[test]
fn role_is_read() {
    let interaction = payload(vec![with_value(
        "rank",
        OptionKind::Role,
        ResolvedValue::Role(some_role(44, "mods")),
    )]);
    let role = interaction.get_role("rank").expect("a role");
    assert_eq!(role.id, RoleId(44));
    assert_eq!(role.name, "mods");
    assert_eq!(role.position, 4);
    assert!(role.mentionable);
    assert!(interaction.get_role("other").is_none());
}

#[test]
fn attachment_is_read() {
    let interaction = payload(vec![with_value(
        "file",
        OptionKind::Attachment,
        ResolvedValue::Attachment(some_attachment(808, "notes.txt")),
    )]);
    let attachment = interaction.get_attachment("file").expect("an attachment");
    assert_eq!(attachment.id, AttachmentId(808));
    assert_eq!(attachment.filename, "notes.txt");
    assert_eq!(attachment.size, 1234);
    assert_eq!(attachment.content_type.as_deref(), Some("text/plain"));
    assert!(interaction.get_attachment("other").is_none());
}

#[test]
fn group_is_absent_when_only_nested() {
    let interaction = payload(vec![
        subcommand("s", vec![group("nested", vec![subcommand("inner", Vec::new())])]),
        string_option("a", "x"),
    ]);
    assert!(interaction.get_subcommand_group().is_none());
    let found = interaction.get_subcommand().expect("a subcommand");
    assert_eq!(found.name, "s");
}

#[test]
fn group_is_found_in_any_top_level_place() {
    let interaction = payload(vec![
        string_option("a", "x"),
        group("first", Vec::new()),
        group("second", Vec::new()),
    ]);
    let found = interaction.get_subcommand_group().expect("a group");
    assert_eq!(found.name, "first");
    assert_eq!(found.kind, OptionKind::SubCommandGroup);
}

#[test]
fn top_level_subcommand_is_found_before_the_groups_children() {
    let interaction = payload(vec![
        group("g", vec![subcommand("inner", Vec::new())]),
        subcommand("outer", Vec::new()),
    ]);
    let found = interaction.get_subcommand().expect("a subcommand");
    assert_eq!(found.name, "outer");
}

#[test]
fn subcommand_is_sought_in_the_first_group_only() {
    let interaction = payload(vec![
        group("empty", Vec::new()),
        group("full", vec![subcommand("inner", Vec::new())]),
    ]);
    assert!(interaction.get_subcommand().is_none());
}

#[test]
fn subcommand_of_a_group_is_its_first_subcommand() {
    let interaction = payload(vec![
        string_option("a", "x"),
        group(
            "g",
            vec![
                string_option("not_this", "y"),
                subcommand("first", vec![integer_option("n", 1)]),
                subcommand("second", Vec::new()),
            ],
        ),
    ]);
    let found = interaction.get_subcommand().expect("a subcommand");
    assert_eq!(found.name, "first");
    assert_eq!(found.options.len(), 1);
    assert_eq!(found.options[0].name, "n");
}

#[test]
fn subcommand_is_absent_without_one() {
    let flat = payload(vec![string_option("a", "x")]);
    assert!(flat.get_subcommand().is_none());
    let grouped = payload(vec![group("g", vec![string_option("a", "x")])]);
    assert!(grouped.get_subcommand().is_none());
}

#[test]
fn lookup_is_undefined_under_a_childless_group() {
    let interaction = payload(vec![group("g", Vec::new()), string_option("a", "x")]);
    assert!(!can_resolve(&interaction, "a", OptionKind::String));
    assert!(!can_resolve(&interaction, "missing", OptionKind::Integer));
}

#[test]
fn lookup_is_undefined_where_the_option_found_has_no_value() {
    let interaction = payload(vec![
        without_value("a", OptionKind::String, Vec::new()),
        string_option("a", "later"),
        string_option("b", "fine"),
    ]);
    assert!(!can_resolve(&interaction, "a", OptionKind::String));
    assert!(can_resolve(&interaction, "a", OptionKind::Integer));
    assert!(can_resolve(&interaction, "b", OptionKind::String));
    assert_eq!(interaction.get_string("b"), Some("fine".to_string()));
}

#[test]
fn lookup_is_defined_where_a_later_duplicate_has_no_value() {
    let interaction = payload(vec![
        string_option("a", "first"),
        without_value("a", OptionKind::String, Vec::new()),
        without_value("m", OptionKind::Mentionable, Vec::new()),
    ]);
    assert!(can_resolve(&interaction, "a", OptionKind::String));
    assert_eq!(interaction.get_string("a"), Some("first".to_string()));
    assert!(can_resolve(&interaction, "m", OptionKind::String));
    assert_eq!(interaction.get_string("m"), None);
}

#[test]
fn clone_copies_the_whole_tree() {
    let tree = group(
        "g",
        vec![subcommand(
            "s",
            vec![
                string_option("a", "x"),
                with_value("u", OptionKind::User, ResolvedValue::User(some_user(9, "nine"), None)),
            ],
        )],
    );
    let copy = tree.clone();
    assert_eq!(copy.name, "g");
    assert_eq!(copy.kind, OptionKind::SubCommandGroup);
    assert!(copy.resolved.is_none());
    assert_eq!(copy.options.len(), 1);
    let inner = &copy.options[0];
    assert_eq!(inner.name, "s");
    assert_eq!(inner.options.len(), 2);
    match &inner.options[0].resolved {
        Some(ResolvedValue::String(text)) => assert_eq!(text, "x"),
        other => panic!("unexpected value: {:?}", other),
    }
    match &inner.options[1].resolved {
        Some(ResolvedValue::User(user, None)) => {
            assert_eq!(user.id, UserId(9));
            assert_eq!(user.name, "nine");
        },
        other => panic!("unexpected value: {:?}", other),
    }
}

#[test]
fn resolved_value_clone_keeps_each_shape() {
    let values = vec![
        ResolvedValue::String("s".to_string()),
        ResolvedValue::Integer(-7),
        ResolvedValue::Boolean(true),
        ResolvedValue::User(some_user(3, "three"), Some(some_member("t"))),
        ResolvedValue::Channel(some_channel(4, "four")),
        ResolvedValue::Role(some_role(5, "five")),
        ResolvedValue::Number(2.25f64.to_bits()),
        ResolvedValue::Attachment(some_attachment(6, "six.bin")),
    ];
    for value in values.iter() {
        let copy = value.clone();
        match (value, &copy) {
            (ResolvedValue::String(a), ResolvedValue::String(b)) => assert_eq!(a, b),
            (ResolvedValue::Integer(a), ResolvedValue::Integer(b)) => assert_eq!(a, b),
            (ResolvedValue::Boolean(a), ResolvedValue::Boolean(b)) => assert_eq!(a, b),
            (ResolvedValue::User(a, ma), ResolvedValue::User(b, mb)) => {
                assert_eq!(a.id, b.id);
                assert_eq!(a.name, b.name);
                assert_eq!(
                    ma.as_ref().and_then(|m| m.nick.clone()),
                    mb.as_ref().and_then(|m| m.nick.clone())
                );
                assert!(mb.is_some());
            },
            (ResolvedValue::Channel(a), ResolvedValue::Channel(b)) => {
                assert_eq!(a.id, b.id);
                assert_eq!(a.name, b.name);
            },
            (ResolvedValue::Role(a), ResolvedValue::Role(b)) => {
                assert_eq!(a.id, b.id);
                assert_eq!(a.name, b.name);
            },
            (ResolvedValue::Number(a), ResolvedValue::Number(b)) => assert_eq!(a, b),
            (ResolvedValue::Attachment(a), ResolvedValue::Attachment(b)) => {
                assert_eq!(a.id, b.id);
                assert_eq!(a.filename, b.filename);
            },
            (a, b) => panic!("shape changed: {:?} became {:?}", a, b),
        }
    }
}

#[test]
fn interaction_clone_answers_alike() {
    let interaction = payload(vec![
        group("g", vec![subcommand("s", vec![integer_option("n", 12), string_option("t", "u")])]),
        integer_option("n", 13),
    ]);
    let copy = interaction.clone();
    assert_eq!(copy.options.len(), 2);
    assert_eq!(copy.get_integer("n"), Some(12));
    assert_eq!(copy.get_string("t"), Some("u".to_string()));
    assert_eq!(copy.get_subcommand().map(|found| found.name), Some("s".to_string()));
    assert_eq!(copy.get_subcommand_group().map(|found| found.name), Some("g".to_string()));
    assert_eq!(interaction.get_integer("n"), Some(12));
}
