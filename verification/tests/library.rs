use psml::parser::{XmlAttr, XmlEvent};
use psml::preview::{capture_text, preview_requests, trim_newlines_exec, Answer, PreviewEnv};
use psml::render::util::{
    fish_quote_single, nu_escape_interp, nu_quote_raw, posix_quote_single, powershell_escape_double,
    powershell_quote_single, raw_sgr, resolve_sgr_color,
};
use psml::{
    convert, find_backend, parse_events, parse_psml, peek_shell_attr, render_preview, resolve_shell,
    shell_quote_single, Node, PsmlError, Shell, ShellBackend, TimeMode,
};

fn doc(body: &str) -> String {
    format!("<psml><body>{}</body></psml>", body)
}

#[test]
fn sgr_colors_resolve_to_exact_codes() {
    assert_eq!(resolve_sgr_color("#ff0000", false).unwrap(), "38;2;255;0;0");
    assert_eq!(resolve_sgr_color("#00FF7f", true).unwrap(), "48;2;0;255;127");
    assert_eq!(resolve_sgr_color("196", true).unwrap(), "48;5;196");
    assert_eq!(resolve_sgr_color("007", false).unwrap(), "38;5;7");
    assert_eq!(resolve_sgr_color("255", false).unwrap(), "38;5;255");
    assert_eq!(resolve_sgr_color("RED", false).unwrap(), "31");
    assert_eq!(resolve_sgr_color("red", true).unwrap(), "41");
    assert_eq!(resolve_sgr_color("gray", false).unwrap(), "90");
    assert_eq!(resolve_sgr_color("brightwhite", true).unwrap(), "107");
}

#[test]
fn sgr_colors_refuse_what_is_not_a_color() {
    assert!(resolve_sgr_color("256", false).is_err());
    assert!(resolve_sgr_color("99999999999999999999999", false).is_err());
    assert!(resolve_sgr_color("#12345g", false).is_err());
    assert!(resolve_sgr_color("#-12345", false).is_err());
    assert!(resolve_sgr_color("#+f+f+f", false).is_err());
    assert!(resolve_sgr_color("", false).is_err());
    assert_eq!(
        resolve_sgr_color("nope", false),
        Err(PsmlError("неизвестное имя цвета: \"nope\"".to_string()))
    );
}

#[test]
fn zsh_colors_use_native_tokens() {
    let out = convert(
        &doc(r##"<color fg="BrightRed" bg="#102030">x</color><color fg="42">y</color><color bg="Blue">z</color>"##),
        Some("zsh"),
        true,
    )
    .unwrap();
    assert_eq!(out, "%F{9}%K{#102030}x%f%k%F{42}y%f%K{blue}z%k");
    assert!(convert(&doc(r#"<color fg="nope">x</color>"#), Some("zsh"), true).is_err());
    assert!(convert(&doc(r#"<color fg="999">x</color>"#), Some("zsh"), true).is_err());
    assert!(convert(&doc(r##"<color fg="#zzzzzz">x</color>"##), Some("zsh"), true).is_err());
    assert!(convert(&doc(r##"<color fg="#+f+f+f">x</color>"##), Some("zsh"), true).is_err());
    assert_eq!(
        convert(&doc(r#"<color fg="255">x</color>"#), Some("zsh"), true).unwrap(),
        "%F{255}x%f"
    );
}

#[test]
fn parser_error_messages() {
    assert_eq!(
        parse_psml("<psml><body><foo/></body></psml>").unwrap_err(),
        PsmlError("неизвестный тег: <foo>".to_string())
    );
    assert_eq!(
        parse_psml("<psml><b>x</b><body></body></psml>").unwrap_err(),
        PsmlError("тег <b> вне <body>".to_string())
    );
    assert_eq!(
        parse_psml("<psml><body><bold>x</italic></body></psml>").unwrap_err(),
        PsmlError("неправильное вложение тегов: ожидался конец </italic>".to_string())
    );
    assert_eq!(
        parse_psml("<psml><body><time mode=\"x\"/></body></psml>").unwrap_err(),
        PsmlError("<time mode=...>: неизвестный режим \"x\"".to_string())
    );
    let e = resolve_shell(Some("tcsh"), None).unwrap_err();
    assert_eq!(
        e,
        PsmlError("неизвестный shell: \"tcsh\" (доступны: bash, zsh, fish, powershell, cmd, nu)".to_string())
    );
}

#[test]
fn quoting_rules_of_each_shell() {
    assert_eq!(posix_quote_single("it's"), "'it'\\''s'");
    assert_eq!(shell_quote_single("a'b"), "'a'\\''b'");
    assert_eq!(fish_quote_single("a\\b'c"), "'a\\\\b\\'c'");
    assert_eq!(powershell_quote_single("it's"), "'it''s'");
    assert_eq!(powershell_escape_double("`a\"$b"), "``a`\"`$b");
    assert_eq!(nu_escape_interp("a\\b\"c(d"), "a\\\\b\\\"c\\(d");
    assert_eq!(nu_quote_raw("x y"), "r#'x y'#");
    assert_eq!(raw_sgr("1"), "\u{1b}[1m");
}

#[test]
fn powershell_date_formats_translate() {
    let out = convert(&doc(r#"<date fmt="%H:%M %% \x"/>"#), Some("pwsh"), true).unwrap();
    assert_eq!(out, "\"$(Get-Date -Format 'HH\\:mm\\ \\%\\ \\\\\\x')\"");
    assert!(convert(&doc(r#"<date fmt="%Y%"/>"#), Some("powershell"), true).is_err());
    let out = convert(&doc("<date/>"), Some("powershell"), true).unwrap();
    assert_eq!(out, "\"$(Get-Date -Format 'ddd MMM dd')\"");
}

#[test]
fn time_modes_parse() {
    assert_eq!(TimeMode::parse("24"), Ok(TimeMode::H24));
    assert_eq!(TimeMode::parse("12"), Ok(TimeMode::H12));
    assert_eq!(TimeMode::parse("ampm"), Ok(TimeMode::AmPm));
    assert_eq!(TimeMode::parse("24short"), Ok(TimeMode::H24Short));
    assert!(TimeMode::parse("25").is_err());
    assert_eq!(TimeMode::AmPm.strftime_fmt(), "%I:%M %p");
}

#[test]
fn time_and_date_per_shell() {
    let d = doc(r#"<time/><time mode="12"/><time mode="ampm"/><time mode="24short"/><date/><date fmt="%Y"/>"#);
    assert_eq!(convert(&d, None, true).unwrap(), "\\t\\T\\@\\A\\d\\D{%Y}");
    assert_eq!(
        convert(&d, Some("zsh"), true).unwrap(),
        "%D{%H:%M:%S}%D{%I:%M:%S}%D{%I:%M %p}%D{%H:%M}%D{%a %b %d}%D{%Y}"
    );
    assert_eq!(
        convert(&doc(r#"<time mode="24short"/><date/>"#), Some("nu"), true).unwrap(),
        "$\"(date now | format date \"%H:%M\")(date now | format date \"%a %b %d\")\""
    );
    assert_eq!(
        convert(&doc(r#"<date/>"#), Some("fish"), true).unwrap(),
        "printf '%s' (date '+%a %b %d')"
    );
    assert!(convert(&doc(r#"<time mode="bogus"/>"#), None, true).is_err());
}

#[test]
fn shell_names_ignore_case() {
    assert_eq!(find_backend("BASH"), Some(Shell::Bash));
    assert_eq!(find_backend("PwSh"), Some(Shell::PowerShell));
    assert_eq!(find_backend("NuShell"), Some(Shell::Nu));
    assert_eq!(find_backend("sh"), None);
    assert_eq!(Shell::Fish.key(), "fish");
    assert_eq!(Shell::PowerShell.aliases(), &["pwsh"]);
}

#[test]
fn shell_choice_precedence() {
    assert_eq!(resolve_shell(None, None), Ok(Shell::Bash));
    assert_eq!(resolve_shell(None, Some("zsh")), Ok(Shell::Zsh));
    assert_eq!(resolve_shell(Some("fish"), Some("zsh")), Ok(Shell::Fish));
    assert_eq!(resolve_shell(Some("cmd"), None), Ok(Shell::Cmd));
    assert!(resolve_shell(Some("xyz"), Some("bash")).is_err());
    assert!(resolve_shell(None, Some("xyz")).is_err());
}

#[test]
fn raw_output_is_the_value_inside_each_wrapper() {
    let d = r#"<psml><head><title>t</title></head><body><user/>$</body></psml>"#;
    for shell in ["bash", "zsh", "fish", "powershell", "cmd", "nu"] {
        let raw = convert(d, Some(shell), true).unwrap();
        let full = convert(d, Some(shell), false).unwrap();
        assert!(full.contains(&raw) || full.contains(&posix_quote_single(&raw)), "{}: {} / {}", shell, raw, full);
    }
    assert_eq!(
        convert(d, Some("bash"), false).unwrap(),
        "PS1='\\[\\033]0;t\\007\\]\\u$'"
    );
    assert_eq!(convert(d, Some("cmd"), false).unwrap(), "title t\r\nprompt %USERNAME%$$\r\n");
    assert_eq!(
        convert(d, Some("nu"), false).unwrap(),
        "print -n \"\\u{1b}]0;t\\u{07}\"\n$env.PROMPT_COMMAND = {|| $\"(($env.USER? | default '') | default ($env.USERNAME? | default ''))$\" }\n"
    );
}

#[test]
fn cmd_refuses_nested_live_commands() {
    let res = convert(&doc(r#"<color fg="red"><bold><git/></bold></color>"#), Some("cmd"), true);
    assert!(res.is_err());
    let res = convert(&doc(r#"<italic><cmd run="x"/></italic>"#), Some("cmd"), false);
    assert!(res.is_err());
}

#[test]
fn zsh_prompt_subst_only_with_commands() {
    let with = convert(&doc(r#"<bold><cmd run="echo hi"/></bold>"#), Some("zsh"), false).unwrap();
    assert_eq!(
        with,
        "setopt PROMPT_SUBST  # нужно, чтобы $(...) внутри PROMPT вычислялся\nPROMPT='%B$(echo hi)%b'"
    );
    let without = convert(&doc("<user/>"), Some("zsh"), false).unwrap();
    assert_eq!(without, "PROMPT='%n'");
}

#[test]
fn bash_backticks_escape_the_command() {
    let out = convert(&doc(r#"<cmd run="a\b`c"/>"#), None, true).unwrap();
    assert_eq!(out, "`a\\\\b\\`c`");
    let out = convert(&doc(r#"<git prefix="[" suffix="]"/>"#), None, true).unwrap();
    assert_eq!(
        out,
        "`b=$(git symbolic-ref --short HEAD 2>/dev/null || git rev-parse --short HEAD 2>/dev/null); [ -n \"$b\" ] && printf \"%s%s%s\" \"[\" \"$b\" \"]\"`"
    );
}

#[test]
fn fish_fragments_merge_literals() {
    let out = convert(&doc(r#"a<br/>b<user/>c"#), Some("fish"), true).unwrap();
    assert_eq!(out, "printf '%s' 'a\nb' $USER 'c'");
    assert_eq!(convert(&doc(""), Some("fish"), true).unwrap(), "printf '%s'");
    let out = convert(
        r#"<psml><head><title>it's</title></head><body><symbol/></body></psml>"#,
        Some("fish"),
        false,
    )
    .unwrap();
    assert_eq!(
        out,
        "function fish_prompt\n    printf '%s' (if fish_is_root_user; echo '#'; else; echo '$'; end)\nend\n\nfunction fish_title\n    echo 'it\\'s'\nend\n"
    );
}

#[test]
fn powershell_escapes_literal_text() {
    let out = convert(&doc(r#"cost: $5 "x"<br/>"#), Some("powershell"), true).unwrap();
    assert_eq!(out, "\"cost: `$5 `\"x`\"`n\"");
}

#[test]
fn parser_errors_for_each_rule() {
    let cases = [
        "<psml><head><foo/></head><body></body></psml>",
        "<psml><body></body>text</psml>",
        "<psml><head>text</head><body></body></psml>",
        "<psml><head><title><b>x</b></title></head><body></body></psml>",
        "<psml><body><color fg=\"red\">x</bold></body></psml>",
        "<psml><body></body>",
        "<psml><head></head></psml>",
        "<psml><body><cmd run=\"\"/></body></psml>",
        "<psml><body><user a=\"1\" a=\"2\"/></body></psml>",
        "<psml><body>&bogus;</body></psml>",
        "",
    ];
    for case in cases {
        assert!(parse_psml(case).is_err(), "expected an error for {:?}", case);
    }
}

#[test]
fn parser_builds_the_tree() {
    let d = parse_psml(
        "<!doctype psml><psml shell=\"Fish\"><!-- c --><HEAD><Title>a&amp;b</Title></HEAD><body><B fg=\"x\">&lt;</B><color BG=\"red\"/>\n  <git/></body></psml>",
    )
    .unwrap();
    assert_eq!(d.shell, Some("Fish".to_string()));
    assert_eq!(d.title, "a&b");
    assert_eq!(
        d.body,
        vec![
            Node::Bold(vec![Node::Text("<".to_string())]),
            Node::Color { fg: None, bg: Some("red".to_string()), children: vec![] },
            Node::Git { prefix: " (".to_string(), suffix: ")".to_string() },
        ]
    );
}

#[test]
fn parse_events_runs_the_builder() {
    let ev = vec![
        XmlEvent::Start { name: "psml".to_string(), attrs: vec![] },
        XmlEvent::Start { name: "body".to_string(), attrs: vec![] },
        XmlEvent::Empty {
            name: "time".to_string(),
            attrs: vec![
                XmlAttr { name: "MODE".to_string(), value: "12".to_string() },
                XmlAttr { name: "mode".to_string(), value: "ampm".to_string() },
            ],
        },
        XmlEvent::Text(" ".to_string()),
        XmlEvent::Other,
        XmlEvent::End { name: "body".to_string() },
        XmlEvent::End { name: "psml".to_string() },
    ];
    let d = parse_events(&ev).unwrap();
    assert_eq!(d.body, vec![Node::Time(TimeMode::AmPm), Node::Text(" ".to_string())]);
    let bad = vec![XmlEvent::Start { name: "body".to_string(), attrs: vec![] }];
    assert!(parse_events(&bad).is_err());
}

fn empty_env() -> PreviewEnv {
    PreviewEnv {
        user_var: None,
        whoami: None,
        hostname: None,
        hostname_full: None,
        cwd: None,
        home: None,
        cwd_name: None,
        uid: None,
        git_branch: None,
        dates: vec![],
        commands: vec![],
    }
}

#[test]
fn preview_shows_live_values() {
    let d = parse_psml(
        r#"<psml><head><title>T</title></head><body><user/>@<host/>:<cwd/> <cwdbase/><symbol/><git prefix="(" suffix=")"/><cmd run="echo hi"/><time mode="24short"/><jobs/></body></psml>"#,
    )
    .unwrap();
    let env = PreviewEnv {
        user_var: Some("".to_string()),
        whoami: Some("alice\n".to_string()),
        hostname: Some("box\n".to_string()),
        hostname_full: Some("\n".to_string()),
        cwd: Some("/home/alice/src".to_string()),
        home: Some("/home/alice".to_string()),
        cwd_name: Some("src".to_string()),
        uid: Some("0\n".to_string()),
        git_branch: Some("main\n\n".to_string()),
        dates: vec![Answer { key: "%H:%M".to_string(), output: Some("12:34\n".to_string()) }],
        commands: vec![Answer { key: "echo hi".to_string(), output: Some("hi\n".to_string()) }],
    };
    let out = render_preview(&d, &env).unwrap();
    assert_eq!(
        out,
        "Заголовок окна: T\nalice@box:~/src src#(main)hi12:340\n(значения <jobs/>/<exitcode/> выше — пример (0): они известны только живой интерактивной сессии шелла, а не этому процессу)"
    );
}

#[test]
fn preview_falls_back_without_observations() {
    let d = parse_psml(r#"<psml><body><user/><hostfull/><cwd/><cwdbase/><symbol/><date/><cmd run="x"/><git/><color fg="green">g</color></body></psml>"#).unwrap();
    let out = render_preview(&d, &empty_env()).unwrap();
    assert_eq!(out, "userhost?/$<date +%a %b %d>\u{1b}[32mg\u{1b}[39m");
    let bad = parse_psml(r#"<psml><body><color fg="nope">g</color></body></psml>"#).unwrap();
    assert!(render_preview(&bad, &empty_env()).is_err());
}

#[test]
fn preview_requests_follow_the_document() {
    let d = parse_psml(r#"<psml><body><time/><bold><cmd run="a"/><date fmt="%Y"/></bold><cmd run="b"/></body></psml>"#).unwrap();
    let r = preview_requests(&d);
    assert_eq!(r.date_formats, vec!["%H:%M:%S".to_string(), "%Y".to_string()]);
    assert_eq!(r.commands, vec!["a".to_string(), "b".to_string()]);
}

#[test]
fn captured_output_is_trimmed() {
    assert_eq!(trim_newlines_exec("a\nb\n\n"), "a\nb");
    assert_eq!(capture_text(&Some("\n\n".to_string())), None);
    assert_eq!(capture_text(&Some("x\n".to_string())), Some("x".to_string()));
    assert_eq!(capture_text(&None), None);
}

#[test]
fn unknown_explicit_shell_wins_over_a_bad_document() {
    let res = convert("<not psml", Some("xyz"), false);
    assert!(res.unwrap_err().0.starts_with("неизвестный shell: \"xyz\" (доступны: bash, zsh, fish, powershell, cmd, nu)"));
}

#[test]
fn bash_renders_part_by_part() {
    let both = convert(&doc(r#"<user/><color fg="red">x</color>"#), None, true).unwrap();
    let first = convert(&doc("<user/>"), None, true).unwrap();
    let second = convert(&doc(r#"<color fg="red">x</color>"#), None, true).unwrap();
    assert_eq!(both, format!("{}{}", first, second));
    let err = convert(&doc(r#"<color fg="nope">x</color><color fg="999">y</color>"#), None, true)
        .unwrap_err();
    assert_eq!(err, PsmlError("неизвестное имя цвета: \"nope\"".to_string()));
    let err = convert(&doc(r#"<user/><color fg="999">y</color>"#), None, true).unwrap_err();
    assert_eq!(err, PsmlError("номер цвета должен быть 0-255, получено \"999\"".to_string()));
}

#[test]
fn background_codes_shift_foreground_codes() {
    assert_eq!(resolve_sgr_color("#102030", false).unwrap(), "38;2;16;32;48");
    assert_eq!(resolve_sgr_color("#102030", true).unwrap(), "48;2;16;32;48");
    assert_eq!(resolve_sgr_color("blue", false).unwrap(), "34");
    assert_eq!(resolve_sgr_color("blue", true).unwrap(), "44");
}

#[test]
fn backend_refusals_name_the_reason() {
    let e = convert(&doc("<git/>"), Some("cmd"), true).unwrap_err();
    assert!(e.0.starts_with("cmd.exe: <git/> не поддержан"));
    let e = convert(&doc("<jobs/>"), Some("nu"), true).unwrap_err();
    assert!(e.0.starts_with("nu: <jobs/> не поддержан"));
    let e = convert(&doc(r#"<date fmt="%Q"/>"#), Some("powershell"), true).unwrap_err();
    assert_eq!(
        e.0,
        "PowerShell: спецификатор даты %Q не поддержан конвертером strftime->.NET (доступны: Y y m d H I M S p a A b B %)"
    );
    let e = convert(&doc(r#"<color fg="nope">x</color>"#), Some("zsh"), true).unwrap_err();
    assert_eq!(e.0, "неизвестное имя цвета: \"nope\"");
}

#[test]
fn document_shell_is_resolved_before_parsing() {
    let text = r#"<psml shell="tcsh"><body><foo/></body></psml>"#;
    let e = convert(text, None, true).unwrap_err();
    assert!(e.0.starts_with("неизвестный shell: \"tcsh\""), "{:?}", e);
    let e = convert(text, Some("bash"), true).unwrap_err();
    assert_eq!(e.0, "неизвестный тег: <foo>");
    assert_eq!(peek_shell_attr(text), Some("tcsh".to_string()));
    assert_eq!(peek_shell_attr("<psml><body></body></psml>"), None);
    assert_eq!(peek_shell_attr(r#"<user/><psml shell="zsh">"#), None);
    assert_eq!(
        convert(r#"<psml shell="zsh"><body><user/></body></psml>"#, None, true).unwrap(),
        "%n"
    );
}

#[test]
fn parse_and_finish_error_messages() {
    assert_eq!(parse_psml("").unwrap_err().0, "не найден корневой тег <psml>");
    assert_eq!(parse_psml("<psml>").unwrap_err().0, "тег <psml> не закрыт");
    assert_eq!(parse_psml("<psml></psml>").unwrap_err().0, "не найден тег <body>");
    assert_eq!(
        parse_psml("<psml><body><b>x</body></psml>").unwrap_err().0,
        "остались незакрытые стилевые теги"
    );
    assert_eq!(
        convert("<psml><body><user/></body></psml>x", None, true).unwrap_err().0,
        "текст вне <body>/<title>"
    );
}
