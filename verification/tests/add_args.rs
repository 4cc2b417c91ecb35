use process_manager::add_args::{build_process_item, Dialogue, Field, Prompt, Reply};
use process_manager::{AddArgs, ProcessItem};

fn strings(values: &[&str]) -> Vec<String> {
    values.iter().map(|v| v.to_string()).collect()
}

fn text(value: &str) -> Option<String> {
    Some(value.to_string())
}

#[test]
fn fields_are_offered_in_a_fixed_order() {
    let order = [
        Field::Name,
        Field::Command,
        Field::Tags,
        Field::ProcessType,
        Field::LogPath,
        Field::DetectionStartCmd,
        Field::Comment,
    ];
    for (position, field) in order.iter().enumerate() {
        assert_eq!(Field::from_index(position), Some(*field));
        assert_eq!(field.index(), position);
    }
    assert_eq!(Field::from_index(7), None);
    assert_eq!(Field::from_index(usize::MAX), None);
}

#[test]
fn a_draft_without_name_or_command_builds_nothing() {
    assert_eq!(build_process_item(AddArgs::empty()), None);
    assert_eq!(build_process_item(AddArgs { name: text("n"), ..AddArgs::empty() }), None);
    assert_eq!(build_process_item(AddArgs { command: text("c"), ..AddArgs::empty() }), None);
}

#[test]
fn missing_fields_are_empty_in_the_definition() {
    let built = build_process_item(AddArgs {
        name: text("web"),
        command: text("python -m http.server"),
        pid: Some(7),
        pid_search_cmd: text("ignored"),
        ..AddArgs::empty()
    });
    assert_eq!(
        built,
        Some(ProcessItem {
            name: "web".to_string(),
            tags: vec![],
            command: "python -m http.server".to_string(),
            process_type: String::new(),
            log_path: String::new(),
            detection_start_cmd: String::new(),
            comment: String::new(),
        })
    );
}

#[test]
fn given_fields_are_taken_over() {
    let built = build_process_item(AddArgs {
        pid: None,
        tags: Some(strings(&["x", "y"])),
        name: text("api"),
        command: text("serve"),
        process_type: text("rust"),
        log_path: text("/tmp/api.log"),
        detection_start_cmd: text("pgrep api"),
        pid_search_cmd: None,
        comment: text("note"),
    });
    assert_eq!(
        built,
        Some(ProcessItem {
            name: "api".to_string(),
            tags: strings(&["x", "y"]),
            command: "serve".to_string(),
            process_type: "rust".to_string(),
            log_path: "/tmp/api.log".to_string(),
            detection_start_cmd: "pgrep api".to_string(),
            comment: "note".to_string(),
        })
    );
}

#[test]
fn prefill_takes_the_command_of_the_process() {
    let mut args = AddArgs { command: text("old"), name: text("n"), ..AddArgs::empty() };
    args.prefill(&Some(("java -jar a.jar".to_string(), "2015-05-15 00:00:00".to_string(), 3)));
    assert_eq!(args.command, text("java -jar a.jar"));
    assert_eq!(args.name, text("n"));
    args.prefill(&None);
    assert_eq!(args.command, text("java -jar a.jar"));
}

#[test]
fn edits_start_from_the_current_value() {
    let args = AddArgs {
        name: text("api"),
        tags: Some(strings(&["x", "y", "z"])),
        comment: text("note"),
        ..AddArgs::empty()
    };
    assert_eq!(args.current(Field::Name), "api");
    assert_eq!(args.current(Field::Command), "");
    assert_eq!(args.current(Field::Tags), "x, y, z");
    assert_eq!(args.current(Field::Comment), "note");
    assert_eq!(args.current(Field::LogPath), "");
    assert_eq!(AddArgs::empty().current(Field::Tags), "");
    assert_eq!(args.missing(), Some(Field::Command));
    assert_eq!(AddArgs::empty().missing(), Some(Field::Name));
}

#[test]
fn tags_are_split_at_commas_and_trimmed() {
    let mut args = AddArgs::empty();
    args.set(Field::Tags, " web ,db,  long tag\t, ,".to_string());
    assert_eq!(args.tags, Some(strings(&["web", "db", "long tag", "", ""])));
    args.set(Field::Tags, String::new());
    assert_eq!(args.tags, Some(strings(&[""])));
    args.set(Field::Tags, "x, y".to_string());
    assert_eq!(args.tags, Some(strings(&["x", "y"])));
    args.set(Field::LogPath, " /tmp/a, b ".to_string());
    assert_eq!(args.log_path, text(" /tmp/a, b "));
    args.set(Field::Name, "n".to_string());
    args.set(Field::Command, "c".to_string());
    args.set(Field::ProcessType, "t".to_string());
    args.set(Field::DetectionStartCmd, "d".to_string());
    args.set(Field::Comment, "m".to_string());
    assert_eq!(
        args,
        AddArgs {
            pid: None,
            tags: Some(strings(&["x", "y"])),
            name: text("n"),
            command: text("c"),
            process_type: text("t"),
            log_path: text(" /tmp/a, b "),
            detection_start_cmd: text("d"),
            pid_search_cmd: None,
            comment: text("m"),
        }
    );
}

#[test]
fn the_dialogue_asks_for_name_then_command() {
    let mut dialogue = Dialogue::new(AddArgs::empty());
    assert_eq!(dialogue.prompt(), Prompt::Ask(Field::Name));
    dialogue.reply(Reply::More(false));
    dialogue.reply(Reply::Choice(3));
    assert_eq!(dialogue.prompt(), Prompt::Ask(Field::Name));
    dialogue.reply(Reply::Text("web".to_string()));
    assert_eq!(dialogue.prompt(), Prompt::Ask(Field::Command));
    dialogue.reply(Reply::Text("python -m http.server".to_string()));
    assert_eq!(dialogue.prompt(), Prompt::Confirm);
    assert_eq!(dialogue.args().name, text("web"));
    dialogue.reply(Reply::More(false));
    assert_eq!(dialogue.prompt(), Prompt::Done);
    let built = dialogue.finish();
    assert_eq!(
        built,
        Some(ProcessItem {
            name: "web".to_string(),
            tags: vec![],
            command: "python -m http.server".to_string(),
            process_type: String::new(),
            log_path: String::new(),
            detection_start_cmd: String::new(),
            comment: String::new(),
        })
    );
}

#[test]
fn a_complete_draft_goes_straight_to_confirmation() {
    let dialogue = Dialogue::new(AddArgs { name: text("n"), command: text("c"), ..AddArgs::empty() });
    assert_eq!(dialogue.prompt(), Prompt::Confirm);
    assert_eq!(dialogue.finish(), None);
}

#[test]
fn a_change_picks_a_field_and_edits_it() {
    let mut dialogue = Dialogue::new(AddArgs {
        name: text("n"),
        command: text("c"),
        tags: Some(strings(&["a", "b"])),
        ..AddArgs::empty()
    });
    dialogue.reply(Reply::More(true));
    assert_eq!(dialogue.prompt(), Prompt::Choose);
    dialogue.reply(Reply::Choice(9));
    assert_eq!(dialogue.prompt(), Prompt::Choose);
    dialogue.reply(Reply::Text("stray".to_string()));
    assert_eq!(dialogue.prompt(), Prompt::Choose);
    dialogue.reply(Reply::Choice(2));
    assert_eq!(dialogue.prompt(), Prompt::Edit(Field::Tags, "a, b".to_string()));
    dialogue.reply(Reply::Text("a, b ,c".to_string()));
    assert_eq!(dialogue.prompt(), Prompt::Confirm);
    assert_eq!(dialogue.args().tags, Some(strings(&["a", "b", "c"])));
    dialogue.reply(Reply::More(true));
    dialogue.reply(Reply::Choice(0));
    assert_eq!(dialogue.prompt(), Prompt::Edit(Field::Name, "n".to_string()));
    dialogue.reply(Reply::Text("renamed".to_string()));
    dialogue.reply(Reply::More(true));
    dialogue.reply(Reply::Choice(6));
    assert_eq!(dialogue.prompt(), Prompt::Edit(Field::Comment, String::new()));
    dialogue.reply(Reply::Text("note".to_string()));
    dialogue.reply(Reply::More(false));
    dialogue.reply(Reply::More(true));
    assert_eq!(dialogue.prompt(), Prompt::Done);
    let built = dialogue.finish();
    assert_eq!(
        built,
        Some(ProcessItem {
            name: "renamed".to_string(),
            tags: strings(&["a", "b", "c"]),
            command: "c".to_string(),
            process_type: String::new(),
            log_path: String::new(),
            detection_start_cmd: String::new(),
            comment: "note".to_string(),
        })
    );
}
