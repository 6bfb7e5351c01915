use vstd::prelude::*;
use vstd::string::{StrSliceExecFns, StringExecFns};

use crate::config::{lookup, ConfigModel, ConfigValue};
use crate::error::{GluegunError, TemplateProblem};

verus! {

/// Whether `c` has Unicode's White_Space property.
pub open spec fn white_space(c: char) -> bool {
    ('\u{9}' <= c <= '\u{d}') || c == ' ' || c == '\u{85}' || c == '\u{a0}' || c == '\u{1680}'
        || ('\u{2000}' <= c <= '\u{200a}') || c == '\u{2028}' || c == '\u{2029}' || c
        == '\u{202f}' || c == '\u{205f}' || c == '\u{3000}'
}

/// Relies on `char::is_whitespace`: whether `c` has Unicode's White_Space
/// property.
#[verifier::external_body]
fn is_white_space(c: char) -> (r: bool)
    ensures
        r == white_space(c),
{
    c.is_whitespace()
}

/// The placeholder that a command template writes for the plugin's name.
pub open spec fn placeholder() -> Seq<char> {
    seq!['{', 'p', 'l', 'u', 'g', 'i', 'n', '}']
}

/// `text` with each occurrence of the placeholder, found from left to right
/// without overlap, replaced by `plugin`.
pub open spec fn fill_placeholder(text: Seq<char>, plugin: Seq<char>) -> Seq<char>
    decreases text.len(),
{
    if text.len() == 0 {
        text
    } else if text.len() >= 8 && text.take(8) == placeholder() {
        plugin + fill_placeholder(text.skip(8), plugin)
    } else {
        seq![text[0]] + fill_placeholder(text.skip(1), plugin)
    }
}

/// The words of `text` that follow the partial word `current`, where words
/// are separated by runs of white space.
pub open spec fn words_from(text: Seq<char>, current: Seq<char>) -> Seq<Seq<char>>
    decreases text.len(),
{
    let done = if current.len() > 0 {
        seq![current]
    } else {
        Seq::empty()
    };
    if text.len() == 0 {
        done
    } else if white_space(text[0]) {
        done + words_from(text.skip(1), Seq::empty())
    } else {
        words_from(text.skip(1), current.push(text[0]))
    }
}

/// The white-space separated words of `text`, without empty ones.
pub open spec fn words(text: Seq<char>) -> Seq<Seq<char>> {
    words_from(text, Seq::empty())
}

/// A program to run, with its arguments.
#[derive(Debug, PartialEq)]
pub struct PluginCommand {
    pub program: String,
    pub args: Vec<String>,
}

/// The views of a list of strings.
pub open spec fn strings_view(v: Seq<String>) -> Seq<Seq<char>> {
    v.map_values(|s: String| s@)
}

impl PluginCommand {
    /// The program followed by its arguments, as character sequences.
    pub open spec fn words_view(&self) -> Seq<Seq<char>> {
        seq![self.program@] + strings_view(self.args@)
    }
}

/// The configuration key that holds a command template.
pub open spec fn plugin_command_key() -> Seq<char> {
    seq!['p', 'l', 'u', 'g', 'i', 'n', '-', 'c', 'o', 'm', 'm', 'a', 'n', 'd']
}

/// The command that the template `template` gives for `plugin`, or the
/// problem that stops it.
pub open spec fn command_from_template(template: Seq<char>, plugin: Seq<char>) -> Result<
    Seq<Seq<char>>,
    TemplateProblem,
> {
    let text = fill_placeholder(template, plugin);
    if text.contains('\'') {
        Err(TemplateProblem::Apostrophe)
    } else if words(text).len() == 0 {
        Err(TemplateProblem::Empty)
    } else {
        Ok(words(text))
    }
}

/// The name of the executable that runs `plugin` by default.
pub open spec fn default_program(plugin: Seq<char>) -> Seq<char> {
    seq!['g', 'l', 'u', 'e', 'g', 'u', 'n', '-'] + plugin
}

/// Replaces each placeholder of `template` by `plugin`.
pub fn fill_template(template: &str, plugin: &str) -> (r: String)
    ensures
        r@ == fill_placeholder(template@, plugin@),
{
    let n = template.unicode_len();
    let mut out = String::new();
    let marker = "{plugin}".to_owned();
    proof {
        reveal_strlit("{plugin}");
        assert(marker@ =~= placeholder());
        assert(template@.skip(0) =~= template@);
    }
    let mut i: usize = 0;
    while i < n
        invariant
            n == template@.len(),
            i <= n,
            marker@ == placeholder(),
            fill_placeholder(template@, plugin@) == out@ + fill_placeholder(
                template@.skip(i as int),
                plugin@,
            ),
        decreases n - i,
    {
        let ghost rest = template@.skip(i as int);
        let ghost before = out@;
        if n - i >= 8 && template.substring_char(i, i + 8).to_owned() == marker {
            out.append(plugin);
            proof {
                assert(rest.take(8) =~= template@.subrange(i as int, i + 8));
                assert(rest.skip(8) =~= template@.skip(i + 8));
                assert(out@ + fill_placeholder(template@.skip(i + 8), plugin@) =~= before
                    + fill_placeholder(rest, plugin@));
            }
            i = i + 8;
        } else {
            out.append(template.substring_char(i, i + 1));
            proof {
                if n - i >= 8 {
                    assert(rest.take(8) =~= template@.subrange(i as int, i + 8));
                }
                assert(rest.skip(1) =~= template@.skip(i + 1));
                assert(template@.subrange(i as int, i + 1) =~= seq![rest[0]]);
                assert(out@ + fill_placeholder(template@.skip(i + 1), plugin@) =~= before
                    + fill_placeholder(rest, plugin@));
            }
            i = i + 1;
        }
    }
    proof {
        assert(template@.skip(n as int) =~= Seq::<char>::empty());
        assert(out@ + Seq::<char>::empty() =~= out@);
    }
    out
}


/// Whether `text` holds an apostrophe.
fn has_apostrophe(text: &str) -> (r: bool)
    ensures
        r == text@.contains('\''),
{
    let n = text.unicode_len();
    let mut i: usize = 0;
    while i < n
        invariant
            n == text@.len(),
            i <= n,
            forall|j: int| 0 <= j < i ==> text@[j] != '\'',
        decreases n - i,
    {
        if text.get_char(i) == '\'' {
            return true;
        }
        i = i + 1;
    }
    false
}

/// Splits `text` into its white-space separated words.
pub fn split_words(text: &str) -> (r: Vec<String>)
    ensures
        strings_view(r@) == words(text@),
{
    let n = text.unicode_len();
    let mut out: Vec<String> = Vec::new();
    let mut start: Option<usize> = None;
    proof {
        assert(text@.skip(0) =~= text@);
        assert(strings_view(out@) =~= Seq::<Seq<char>>::empty());
    }
    let mut i: usize = 0;
    while i < n
        invariant
            n == text@.len(),
            i <= n,
            match start {
                Some(st) => st < i,
                None => true,
            },
            words(text@) == strings_view(out@) + words_from(
                text@.skip(i as int),
                match start {
                    Some(st) => text@.subrange(st as int, i as int),
                    None => Seq::empty(),
                },
            ),
        decreases n - i,
    {
        let ghost rest = text@.skip(i as int);
        let ghost current = match start {
            Some(st) => text@.subrange(st as int, i as int),
            None => Seq::<char>::empty(),
        };
        let ghost before = strings_view(out@);
        let c = text.get_char(i);
        proof {
            assert(rest[0] == c);
            assert(rest.skip(1) =~= text@.skip(i + 1));
        }
        if is_white_space(c) {
            if let Some(st) = start {
                out.push(text.substring_char(st, i).to_owned());
                proof {
                    assert(strings_view(out@) =~= before.push(current));
                    assert(strings_view(out@) + words_from(text@.skip(i + 1), Seq::empty()) =~= before
                        + (seq![current] + words_from(rest.skip(1), Seq::empty())));
                }
            } else {
                proof {
                    assert(strings_view(out@) =~= before);
                    assert(Seq::<Seq<char>>::empty() + words_from(rest.skip(1), Seq::empty())
                        =~= words_from(rest.skip(1), Seq::empty()));
                }
            }
            start = None;
        } else {
            proof {
                assert(strings_view(out@) =~= before);
                match start {
                    Some(st) => {
                        assert(current.push(c) =~= text@.subrange(st as int, i + 1));
                    },
                    None => {
                        assert(current.push(c) =~= text@.subrange(i as int, i + 1));
                    },
                }
            }
            if start.is_none() {
                start = Some(i);
            }
        }
        i = i + 1;
    }
    if let Some(st) = start {
        let ghost before = strings_view(out@);
        out.push(text.substring_char(st, n).to_owned());
        proof {
            assert(strings_view(out@) =~= before.push(text@.subrange(st as int, n as int)));
        }
    }
    proof {
        assert(text@.skip(n as int) =~= Seq::<char>::empty());
    }
    out
}

/// Builds a command from the template `template` for `plugin`: the
/// placeholder becomes the plugin's name, and the first white-space
/// separated word is the program, the others its arguments.
pub fn command_from(template: &str, plugin: &str) -> (r: Result<PluginCommand, GluegunError>)
    ensures
        match command_from_template(template@, plugin@) {
            Ok(w) => match r {
                Ok(c) => c.words_view() == w,
                Err(_) => false,
            },
            Err(problem) => match r {
                Err(GluegunError::PluginCommandTemplateInvalid { problem: p }) => p == problem,
                _ => false,
            },
        },
{
    let text = fill_template(template, plugin);
    if has_apostrophe(text.as_str()) {
        return Err(GluegunError::PluginCommandTemplateInvalid { problem: TemplateProblem::Apostrophe });
    }
    let mut words = split_words(text.as_str());
    if words.len() == 0 {
        return Err(GluegunError::PluginCommandTemplateInvalid { problem: TemplateProblem::Empty });
    }
    let ghost all = strings_view(words@);
    let program = words.remove(0);
    let c = PluginCommand { program, args: words };
    proof {
        assert(c.words_view() =~= all);
    }
    Ok(c)
}

/// The command that a `plugin-command` template in the configuration gives,
/// if there is one.
pub fn customized_plugin_command(gluegun_config: &ConfigValue, plugin: &str) -> (r: Result<Option<PluginCommand>, GluegunError>)
    ensures
        match lookup(gluegun_config@, plugin_command_key()) {
            None => r matches Ok(None),
            Some(ConfigModel::Text(t)) => match command_from_template(t, plugin@) {
                Ok(w) => match r {
                    Ok(Some(c)) => c.words_view() == w,
                    _ => false,
                },
                Err(problem) => match r {
                    Err(GluegunError::PluginCommandTemplateInvalid { problem: p }) => p == problem,
                    _ => false,
                },
            },
            Some(_) => match r {
                Err(GluegunError::PluginCommandTemplateInvalid { problem: p }) => p
                    == TemplateProblem::NotAString,
                _ => false,
            },
        },
{
    let key = "plugin-command".to_owned();
    proof {
        reveal_strlit("plugin-command");
        assert(key@ =~= plugin_command_key());
    }
    match gluegun_config.get(&key) {
        None => Ok(None),
        Some(ConfigValue::String(template)) => match command_from(template.as_str(), plugin) {
            Ok(c) => Ok(Some(c)),
            Err(e) => Err(e),
        },
        Some(_) => Err(GluegunError::PluginCommandTemplateInvalid { problem: TemplateProblem::NotAString }),
    }
}

/// The command that runs `plugin`: the configured template's when there is
/// one, else the executable `gluegun-<plugin>` without arguments.
pub fn default_plugin_command(gluegun_config: &ConfigValue, plugin: &str) -> (r: Result<PluginCommand, GluegunError>)
    ensures
        match lookup(gluegun_config@, plugin_command_key()) {
            None => match r {
                Ok(c) => c.program@ == default_program(plugin@) && c.args@.len() == 0,
                Err(_) => false,
            },
            Some(ConfigModel::Text(t)) => match command_from_template(t, plugin@) {
                Ok(w) => match r {
                    Ok(c) => c.words_view() == w,
                    Err(_) => false,
                },
                Err(problem) => match r {
                    Err(GluegunError::PluginCommandTemplateInvalid { problem: p }) => p == problem,
                    _ => false,
                },
            },
            Some(_) => match r {
                Err(GluegunError::PluginCommandTemplateInvalid { problem: p }) => p
                    == TemplateProblem::NotAString,
                _ => false,
            },
        },
{
    match customized_plugin_command(gluegun_config, plugin) {
        Err(e) => Err(e),
        Ok(Some(c)) => Ok(c),
        Ok(None) => {
            let mut program = "gluegun-".to_owned();
            program.append(plugin);
            proof {
                reveal_strlit("gluegun-");
            }
            Ok(PluginCommand { program, args: Vec::new() })
        },
    }
}

/// The argument that every plugin receives last: `gg-<plugin>`.
pub fn plugin_marker(plugin: &str) -> (r: String)
    ensures
        r@ == seq!['g', 'g', '-'] + plugin@,
{
    let mut marker = "gg-".to_owned();
    marker.append(plugin);
    proof {
        reveal_strlit("gg-");
    }
    marker
}

} // verus!
