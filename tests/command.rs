use cargo_gluegun::command::{
    command_from, default_plugin_command, fill_template, plugin_marker, split_words, PluginCommand,
};
use cargo_gluegun::config::ConfigValue;
use cargo_gluegun::error::{GluegunError, TemplateProblem};

fn template_config(value: ConfigValue) -> ConfigValue {
    ConfigValue::Object(vec![("plugin-command".to_string(), value)])
}

#[test]
fn template_fills_plugin_and_splits_words() {
    let c = command_from("my-runner {plugin} --fast", "java").unwrap();
    assert_eq!(c.program, "my-runner");
    assert_eq!(c.args, vec!["java".to_string(), "--fast".to_string()]);
}

#[test]
fn template_with_apostrophe_is_refused() {
    let config = template_config(ConfigValue::String("run '{plugin}'".to_string()));
    assert_eq!(
        default_plugin_command(&config, "java"),
        Err(GluegunError::PluginCommandTemplateInvalid { problem: TemplateProblem::Apostrophe })
    );
}

#[test]
fn empty_or_non_string_template_is_refused() {
    let config = template_config(ConfigValue::String("   ".to_string()));
    assert_eq!(
        default_plugin_command(&config, "java"),
        Err(GluegunError::PluginCommandTemplateInvalid { problem: TemplateProblem::Empty })
    );
    let config = template_config(ConfigValue::Bool(true));
    assert_eq!(
        default_plugin_command(&config, "java"),
        Err(GluegunError::PluginCommandTemplateInvalid { problem: TemplateProblem::NotAString })
    );
}

#[test]
fn default_command_names_plugin_executable() {
    assert_eq!(
        default_plugin_command(&ConfigValue::Null, "java"),
        Ok(PluginCommand { program: "gluegun-java".to_string(), args: vec![] })
    );
    let config = template_config(ConfigValue::String("wrap gluegun-{plugin}".to_string()));
    assert_eq!(
        default_plugin_command(&config, "py"),
        Ok(PluginCommand { program: "wrap".to_string(), args: vec!["gluegun-py".to_string()] })
    );
}

#[test]
fn placeholder_replacement_and_word_split() {
    assert_eq!(fill_template("{plugin}-{plugin}{plug", "x"), "x-x{plug");
    assert_eq!(fill_template("", "x"), "");
    assert_eq!(split_words("  a\tbc \n d  "), vec!["a".to_string(), "bc".to_string(), "d".to_string()]);
    assert!(split_words(" \t ").is_empty());
    assert_eq!(plugin_marker("java"), "gg-java");
}
