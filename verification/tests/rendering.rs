use theme_picker::error::ThemeError;
use theme_picker::services::renderer::{
    find_variable, render, render_hypr_config, render_kitty_config, render_line,
};

fn table(pairs: &[(&str, &str)]) -> Vec<(String, String)> {
    pairs.iter().map(|(n, v)| (n.to_string(), v.to_string())).collect()
}

fn groups(all: &[Option<&str>]) -> Option<Vec<Option<String>>> {
    Some(all.iter().map(|g| g.map(|t| t.to_string())).collect())
}

#[test]
fn a_placeholder_is_replaced_by_the_hexadecimal_colour() {
    let variables = table(&[("bg", "rgba(0,0,0,1)")]);
    assert_eq!(render(&variables, "background __bg__"), Ok("background 000000\n".to_string()));
}

#[test]
fn a_placeholder_of_an_unknown_name_leaves_the_line() {
    let variables = table(&[("bg", "rgba(0,0,0,1)")]);
    assert_eq!(render(&variables, "foreground __fg__"), Ok("foreground __fg__\n".to_string()));
}

#[test]
fn a_line_without_placeholder_is_left_as_it_is() {
    let variables = table(&[("bg", "rgba(0,0,0,1)")]);
    for line in ["", "background #000000", "a_b", "__", "___", "bg", "# comment"] {
        assert_eq!(render(&variables, line), render(&variables, line));
        let expected = if line.is_empty() { String::new() } else { format!("{}\n", line) };
        assert_eq!(render(&variables, line), Ok(expected), "{:?}", line);
    }
}

#[test]
fn a_value_that_is_no_colour_fails_the_rendering() {
    let variables = table(&[("bg", "rgba(0,0,0,1)"), ("gap", "4px")]);
    assert_eq!(
        render(&variables, "background __bg__\nmargin __gap__\nforeground __bg__\n"),
        Err(ThemeError::ColorConversionFailed {
            variable: "gap".to_string(),
            value: "4px".to_string(),
        })
    );
}

#[test]
fn two_placeholders_on_a_line_are_not_replaced() {
    let variables = table(&[("a", "rgba(1,1,1,1)"), ("b", "rgba(2,2,2,1)")]);
    assert_eq!(render(&variables, "x __a__ y __b__"), Ok("x __a__ y __b__\n".to_string()));
}

#[test]
fn the_first_variable_of_a_name_is_used() {
    let variables = table(&[("c", "rgba(1,2,3,1)"), ("c", "rgba(4,5,6,1)")]);
    assert_eq!(render(&variables, "color __c__"), Ok("color 010203\n".to_string()));
    assert_eq!(find_variable(&variables, "c"), Some(&"rgba(1,2,3,1)".to_string()));
    assert_eq!(find_variable(&variables, "d"), None);
    assert_eq!(find_variable(&Vec::new(), "c"), None);
}

#[test]
fn every_line_is_closed_by_a_newline() {
    let variables = table(&[("bg", "rgba(255, 0, 128, 1)")]);
    assert_eq!(
        render(&variables, "one\r\ntwo __bg__\n\nfour"),
        Ok("one\ntwo FF0080\n\nfour\n".to_string())
    );
    assert_eq!(render(&variables, ""), Ok(String::new()));
}

#[test]
fn a_name_may_hold_more_than_letters() {
    let variables = table(&[("my-color_1", "rgba(16,32,48,1)"), ("", "rgba(1,1,1,1)")]);
    assert_eq!(render(&variables, "c __my-color_1__;"), Ok("c 102030;\n".to_string()));
    assert_eq!(render(&variables, "c ____;"), Ok("c 010101;\n".to_string()));
    // The expression takes as much as it can: the name is `_my-color_1_`.
    assert_eq!(render(&variables, "c ___my-color_1___;"), Ok("c ___my-color_1___;\n".to_string()));
}

#[test]
fn render_line_goes_by_the_groups_it_is_given() {
    let variables = table(&[("bg", "rgba(0,0,0,1)"), ("gap", "4px")]);
    let line = "a __bg__ b __bg__";
    assert_eq!(render_line(&variables, line, None), Ok(line.to_string()));
    assert_eq!(
        render_line(&variables, line, groups(&[Some("__bg__"), Some("bg")])),
        Ok("a 000000 b __bg__".to_string())
    );
    assert_eq!(
        render_line(&variables, line, groups(&[Some("__bg__"), Some("fg")])),
        Ok(line.to_string())
    );
    assert_eq!(
        render_line(&variables, line, groups(&[Some("absent"), Some("bg")])),
        Ok(line.to_string())
    );
    assert_eq!(render_line(&variables, line, groups(&[Some("__bg__")])), Ok(line.to_string()));
    assert_eq!(
        render_line(&variables, line, groups(&[Some("__bg__"), Some("bg"), Some("bg")])),
        Ok(line.to_string())
    );
    assert_eq!(
        render_line(&variables, line, groups(&[Some("__bg__"), None])),
        Ok(line.to_string())
    );
    assert_eq!(render_line(&variables, line, groups(&[None, Some("bg")])), Ok(line.to_string()));
    assert_eq!(render_line(&variables, line, groups(&[])), Ok(line.to_string()));
    assert_eq!(
        render_line(&variables, line, groups(&[Some("__bg__"), Some("gap")])),
        Err(ThemeError::ColorConversionFailed {
            variable: "gap".to_string(),
            value: "4px".to_string(),
        })
    );
}

#[test]
fn the_style_variables_file_lists_every_variable() {
    let variables = table(&[("bg", "rgba(0,0,0,1)"), ("gap", "4px8px"), ("bg", "again")]);
    assert_eq!(
        render_hypr_config(&variables, "/themes/nord/theme-variables.scss"),
        "# Autogenerated from /themes/nord/theme-variables.scss\n$bg = rgba(0,0,0,1)\n$gap = 4px8px\n$bg = again\n"
    );
}

#[test]
fn the_style_variables_file_of_no_variable_is_its_header() {
    assert_eq!(render_hypr_config(&Vec::new(), "x.scss"), "# Autogenerated from x.scss\n");
}

#[test]
fn the_terminal_theme_opens_with_the_header() {
    let variables = table(&[("bg", "rgba(0,0,0,1)"), ("fg", "rgba(255,255,255,1)")]);
    assert_eq!(
        render_kitty_config(
            &variables,
            "/themes/nord/theme-variables.scss",
            "background __bg__\nforeground __fg__\ncursor __cursor__\nfont_size 11\n"
        ),
        Ok("# Autogenerated from /themes/nord/theme-variables.scss\nbackground 000000\nforeground FFFFFF\ncursor __cursor__\nfont_size 11\n".to_string())
    );
}

#[test]
fn the_terminal_theme_fails_as_its_rendering_does() {
    let variables = table(&[("bg", "none")]);
    assert_eq!(
        render_kitty_config(&variables, "x.scss", "background __bg__"),
        Err(ThemeError::ColorConversionFailed {
            variable: "bg".to_string(),
            value: "none".to_string(),
        })
    );
}

#[test]
fn rendering_twice_gives_the_same_text() {
    let variables = table(&[("bg", "rgba(12, 34, 56, 1)"), ("fg", "rgba(65,43,21,1)")]);
    let template = "background __bg__\nforeground __fg__\n";
    assert_eq!(
        render_kitty_config(&variables, "x.scss", template),
        render_kitty_config(&variables, "x.scss", template)
    );
    assert_eq!(render_hypr_config(&variables, "x.scss"), render_hypr_config(&variables, "x.scss"));
}
