use psml::ShellBackend;

#[test]
fn minimal_doc() {
    let out = psml::convert("<psml><body><user/></body></psml>", None, false).unwrap();
    assert_eq!(out, "PS1='\\u'");
}

#[test]
fn whitespace_only_with_newline_is_dropped() {
    let out = psml::convert(
        "<psml><body><user/>\n    <host/></body></psml>",
        None,
        true,
    )
    .unwrap();
    assert_eq!(out, "\\u\\h");
}

#[test]
fn single_line_space_is_preserved() {
    let out = psml::convert("<psml><body><user/> <host/></body></psml>", None, true).unwrap();
    assert_eq!(out, "\\u \\h");
}

#[test]
fn entities_in_cmd_attr_are_decoded() {
    let out = psml::convert(
        r#"<psml><body><cmd run="a &amp;&amp; b &gt; c &lt; d &quot;q&quot;"/></body></psml>"#,
        None,
        true,
    )
    .unwrap();
    assert_eq!(out, "`a && b > c < d \"q\"`");
}

#[test]
fn bash_cmd_and_git_use_backticks_not_dollar_paren() {
    let out = psml::convert(
        r#"<psml><body><git/><cmd run="echo hi"/><br/></body></psml>"#,
        None,
        true,
    )
    .unwrap();
    assert!(
        out.starts_with("`b=$(git symbolic-ref"),
        "<git/> должен быть обёрнут во внешние backticks: {}",
        out
    );
    assert!(
        out.contains("`echo hi`"),
        "<cmd run=\"echo hi\"/> должен быть обёрнут в backticks: {}",
        out
    );

    let out_zsh = psml::convert(
        r#"<psml shell="zsh"><body><git/><cmd run="echo hi"/><br/></body></psml>"#,
        None,
        true,
    )
    .unwrap();
    assert!(
        out_zsh.starts_with("$(b=$(git symbolic-ref"),
        "в zsh <git/> остаётся на $(...): {}",
        out_zsh
    );
    assert!(
        out_zsh.contains("$(echo hi)"),
        "в zsh <cmd run=\"echo hi\"/> остаётся на $(...): {}",
        out_zsh
    );
}

#[test]
fn self_closing_style_tag_auto_closes() {
    let out = psml::convert("<psml><body><bold/>x</body></psml>", None, true).unwrap();
    assert_eq!(out, "\\[\\033[1m\\]\\[\\033[22m\\]x");
}

#[test]
fn nested_color_and_bold() {
    let out = psml::convert(
        r#"<psml><body><color fg="green"><bold><user/></bold></color></body></psml>"#,
        None,
        true,
    )
    .unwrap();
    assert_eq!(
        out,
        "\\[\\033[32m\\]\\[\\033[1m\\]\\u\\[\\033[22m\\]\\[\\033[39m\\]"
    );
}

#[test]
fn zsh_uses_prompt_subst_when_git_used() {
    let out = psml::convert(r#"<psml shell="zsh"><body><git/></body></psml>"#, None, false)
        .unwrap();
    assert!(out.starts_with("setopt PROMPT_SUBST"));
}

#[test]
fn bash_does_not_need_prompt_subst() {
    let out = psml::convert(r#"<psml><body><git/></body></psml>"#, None, false).unwrap();
    assert!(!out.contains("setopt"));
}

#[test]
fn errors_are_detected_like_in_python() {
    let bad_cases = [
        "<body><user/></body>",                                   // нет <psml>
        "<psml><body><foo/></body></psml>",                       // неизвестный тег
        "<psml><body><bold>x</italic></bold></body></psml>",      // неправильное вложение
        "<psml><body><color>x</color></body></psml>",             // нет fg/bg
        "<psml><body><color fg=\"#zzzzzz\">x</color></body></psml>", // битый hex
        "<psml><body><color fg=\"999\">x</color></body></psml>",  // вне диапазона
        "<psml><body><cmd/></body></psml>",                       // нет run
        "<psml><title>x</title><body></body></psml>",             // title вне head
        "<user/><psml><body></body></psml>",                      // тег до <psml>
        "<psml><body><bold>x</body></psml>",                      // незакрытый стиль
    ];
    for case in bad_cases {
        let res = psml::convert(case, None, false);
        assert!(res.is_err(), "ожидалась ошибка для: {}", case);
    }
}

#[test]
fn shell_keys_includes_all_backends() {
    let keys = psml::shell_keys();
    for expected in ["bash", "zsh", "fish", "powershell", "cmd", "nu"] {
        assert!(keys.contains(&expected), "в реестре нет {:?}: {:?}", expected, keys);
    }
}

#[test]
fn unknown_shell_errors() {
    let res = psml::convert("<psml><body><user/></body></psml>", Some("xyz"), false);
    assert!(res.is_err());
}

#[test]
fn powershell_alias_pwsh_resolves_to_same_backend() {
    let by_key = psml::find_backend("powershell").unwrap();
    let by_alias = psml::find_backend("pwsh").unwrap();
    assert_eq!(by_key.key(), by_alias.key());
}

#[test]
fn nu_alias_nushell_resolves_to_same_backend() {
    let by_key = psml::find_backend("nu").unwrap();
    let by_alias = psml::find_backend("nushell").unwrap();
    assert_eq!(by_key.key(), by_alias.key());
}

#[test]
fn cli_override_wins_over_doc_attribute() {
    let out = psml::convert(
        r#"<psml shell="bash"><body><user/></body></psml>"#,
        Some("zsh"),
        true,
    )
    .unwrap();
    assert_eq!(out, "%n");
}

#[test]
fn fish_raw_is_just_printf_no_function_wrapper() {
    let out = psml::convert(
        r#"<psml><body><color fg="green"><user/></color></body></psml>"#,
        Some("fish"),
        true,
    )
    .unwrap();
    assert!(!out.contains("function"), "raw не должен включать обёртку: {}", out);
    assert!(out.starts_with("printf '%s'"));
    assert!(out.contains("$USER"));
}

#[test]
fn fish_non_raw_defines_fish_prompt_and_fish_title() {
    let out = psml::convert(
        r#"<psml><head><title>hi</title></head><body><user/></body></psml>"#,
        Some("fish"),
        false,
    )
    .unwrap();
    assert!(out.contains("function fish_prompt"));
    assert!(out.contains("function fish_title"));
    assert!(out.contains("echo 'hi'"));
}

#[test]
fn fish_cmd_run_shells_out_to_bash() {
    let out = psml::convert(
        r#"<psml><body><cmd run="echo hi"/></body></psml>"#,
        Some("fish"),
        true,
    )
    .unwrap();
    assert!(out.contains("(bash -c 'echo hi')"));
}

#[test]
fn powershell_raw_is_just_the_string_literal() {
    let out = psml::convert(
        r#"<psml><body><color fg="green"><user/></color></body></psml>"#,
        Some("powershell"),
        true,
    )
    .unwrap();
    assert!(!out.contains("function prompt"));
    assert!(out.starts_with('"') && out.ends_with('"'));
    assert!(out.contains("$env:USERNAME"));
}

#[test]
fn powershell_non_raw_defines_prompt_function_and_sets_title() {
    let out = psml::convert(
        r#"<psml><head><title>hi</title></head><body><user/></body></psml>"#,
        Some("powershell"),
        false,
    )
    .unwrap();
    assert!(out.starts_with("function prompt {"));
    assert!(out.contains("$Host.UI.RawUI.WindowTitle = 'hi'"));
}

#[test]
fn powershell_cmd_run_shells_out_to_bash() {
    let out = psml::convert(
        r#"<psml><body><cmd run="echo hi"/></body></psml>"#,
        Some("powershell"),
        true,
    )
    .unwrap();
    assert!(out.contains("$(bash -c 'echo hi')"));
}

#[test]
fn powershell_date_fmt_converts_strftime_to_dotnet() {
    let out = psml::convert(
        r#"<psml><body><date fmt="%d.%m.%Y"/></body></psml>"#,
        Some("powershell"),
        true,
    )
    .unwrap();
    assert!(out.contains("dd\\.MM\\.yyyy"), "{}", out);
}

#[test]
fn powershell_date_fmt_unknown_specifier_errors() {
    let res = psml::convert(
        r#"<psml><body><date fmt="%Q"/></body></psml>"#,
        Some("powershell"),
        true,
    );
    assert!(res.is_err());
}

#[test]
fn cmd_supported_features_render_exactly() {
    let out = psml::convert(
        r#"<psml><head><title>hi</title></head><body><color fg="green"><user/></color></body></psml>"#,
        Some("cmd"),
        false,
    )
    .unwrap();
    assert_eq!(out, "title hi\r\nprompt $E[32m%USERNAME%$E[39m\r\n");
}

#[test]
fn cmd_raw_has_no_title_or_prompt_wrapper() {
    let out = psml::convert(
        r#"<psml><head><title>hi</title></head><body><cwd/></body></psml>"#,
        Some("cmd"),
        true,
    )
    .unwrap();
    assert_eq!(out, "$P");
}

#[test]
fn cmd_cannot_run_live_commands() {
    for psml in [
        r#"<psml><body><git/></body></psml>"#,
        r#"<psml><body><cmd run="echo hi"/></body></psml>"#,
        r#"<psml><body><jobs/></body></psml>"#,
        r#"<psml><body><cwdbase/></body></psml>"#,
        r#"<psml><body><time mode="12"/></body></psml>"#,
        r#"<psml><body><date fmt="%Y"/></body></psml>"#,
    ] {
        let res = psml::convert(psml, Some("cmd"), true);
        assert!(res.is_err(), "ожидалась ошибка cmd.exe для: {}", psml);
    }
}

#[test]
fn nu_non_raw_sets_prompt_command_closure() {
    let out = psml::convert(
        r#"<psml><body><user/></body></psml>"#,
        Some("nu"),
        false,
    )
    .unwrap();
    assert!(out.contains("$env.PROMPT_COMMAND = {|| "));
}

#[test]
fn nu_jobs_is_unsupported() {
    let res = psml::convert(r#"<psml><body><jobs/></body></psml>"#, Some("nu"), true);
    assert!(res.is_err());
}

#[test]
fn nu_cmd_run_shells_out_to_bash() {
    let out = psml::convert(
        r#"<psml><body><cmd run="echo hi"/></body></psml>"#,
        Some("nu"),
        true,
    )
    .unwrap();
    assert!(out.contains("(^bash -c r#'echo hi'#)"));
}
