use vstd::prelude::*;
use crate::json::{obj_get, JsonValue};
use crate::render::{colorize_text, spec_colorize, AnsiColor};
use crate::strutil::{
    i64_to_string, push_char, spec_ascii_lower, spec_i64_digits, str_eq,
};

verus! {

/// The process-wide settings: which model to talk to, how to sample from
/// it, and how tool calls and model thinking are presented. The sampling
/// temperature is kept in hundredths, so that the whole structure is plain
/// data; the presentation layer divides by one hundred where the backend
/// wants a fraction.
#[derive(Debug)]
pub struct SettingsManager {
    pub model_name: String,
    pub show_thinking: bool,
    pub model_seed: i32,
    pub model_temperature: i32,
    pub model_system_prompt: String,
    pub verbose_tool_calls: bool,
    pub tool_confirmation: bool,
    pub auto_save_config: bool,
    pub config_file_path: String,
}

impl SettingsManager {
    /// An equal duplicate of the settings.
    pub fn duplicate(&self) -> (r: SettingsManager)
        ensures
            r == *self,
    {
        SettingsManager {
            model_name: self.model_name.clone(),
            show_thinking: self.show_thinking,
            model_seed: self.model_seed,
            model_temperature: self.model_temperature,
            model_system_prompt: self.model_system_prompt.clone(),
            verbose_tool_calls: self.verbose_tool_calls,
            tool_confirmation: self.tool_confirmation,
            auto_save_config: self.auto_save_config,
            config_file_path: self.config_file_path.clone(),
        }
    }
}

impl Default for SettingsManager {
    /// The settings a fresh installation starts from. The configuration
    /// file path is left empty; the surrounding application fills in the
    /// platform's configuration directory.
    fn default() -> (r: SettingsManager)
        ensures
            r.model_name@ == "qwen2.5:7b"@,
            r.show_thinking,
            r.model_seed == 0,
            r.model_temperature == 80,
            r.model_system_prompt@ == Seq::<char>::empty(),
            r.verbose_tool_calls,
            r.tool_confirmation,
            r.auto_save_config,
            r.config_file_path@ == Seq::<char>::empty(),
    {
        SettingsManager {
            model_name: String::from_str("qwen2.5:7b"),
            show_thinking: true,
            model_seed: 0,
            model_temperature: 80,
            model_system_prompt: String::new(),
            verbose_tool_calls: true,
            tool_confirmation: true,
            auto_save_config: true,
            config_file_path: String::new(),
        }
    }
}

/// Whether the JSON object `v` holds the string `val` under `key`.
pub open spec fn field_is_str(v: JsonValue, key: Seq<char>, val: Seq<char>) -> bool {
    &&& v is Obj
    &&& match obj_get(v->Obj_0@, key) {
        Some(JsonValue::Str(x)) => x@ == val,
        _ => false,
    }
}

/// Whether the JSON object `v` holds the boolean `b` under `key`.
pub open spec fn field_is_bool(v: JsonValue, key: Seq<char>, b: bool) -> bool {
    &&& v is Obj
    &&& match obj_get(v->Obj_0@, key) {
        Some(JsonValue::Bool(x)) => x == b,
        _ => false,
    }
}

/// Whether the JSON object `v` holds the number `n` under `key`.
pub open spec fn field_is_int(v: JsonValue, key: Seq<char>, n: int) -> bool {
    &&& v is Obj
    &&& match obj_get(v->Obj_0@, key) {
        Some(JsonValue::Int(x)) => x as int == n,
        _ => false,
    }
}

/// Whether a JSON document holds exactly the given settings: every settings
/// field is present under its name with the right type and value.
pub open spec fn settings_matches_json(s: SettingsManager, v: JsonValue) -> bool {
    &&& field_is_str(v, "model_name"@, s.model_name@)
    &&& field_is_bool(v, "show_thinking"@, s.show_thinking)
    &&& field_is_int(v, "model_seed"@, s.model_seed as int)
    &&& field_is_int(v, "model_temperature"@, s.model_temperature as int)
    &&& field_is_str(v, "model_system_prompt"@, s.model_system_prompt@)
    &&& field_is_bool(v, "verbose_tool_calls"@, s.verbose_tool_calls)
    &&& field_is_bool(v, "tool_confirmation"@, s.tool_confirmation)
    &&& field_is_bool(v, "auto_save_config"@, s.auto_save_config)
    &&& field_is_str(v, "config_file_path"@, s.config_file_path@)
}

/// Whether a JSON document has the shape settings are read from: every
/// settings field present under its name, with the right type, numbers
/// within range.
pub open spec fn settings_json_wf(v: JsonValue) -> bool {
    exists|s: SettingsManager| settings_matches_json(s, v)
}

proof fn reveal_settings_keys()
    ensures
        "model_name"@.len() == 10,
        "show_thinking"@.len() == 13,
        "model_seed"@.len() == 10,
        "model_temperature"@.len() == 17,
        "model_system_prompt"@.len() == 19,
        "verbose_tool_calls"@.len() == 18,
        "tool_confirmation"@.len() == 17,
        "auto_save_config"@.len() == 16,
        "config_file_path"@.len() == 16,
        "model_name"@ != "model_seed"@,
        "model_temperature"@ != "tool_confirmation"@,
        "auto_save_config"@ != "config_file_path"@,
{
    reveal_strlit("model_name");
    reveal_strlit("show_thinking");
    reveal_strlit("model_seed");
    reveal_strlit("model_temperature");
    reveal_strlit("model_system_prompt");
    reveal_strlit("verbose_tool_calls");
    reveal_strlit("tool_confirmation");
    reveal_strlit("auto_save_config");
    reveal_strlit("config_file_path");
    assert("model_name"@[6] != "model_seed"@[6]);
    assert("model_temperature"@[0] != "tool_confirmation"@[0]);
    assert("auto_save_config"@[0] != "config_file_path"@[0]);
}

impl SettingsManager {
    /// These settings as a JSON object, one field per setting, in
    /// declaration order.
    pub fn to_json(&self) -> (r: JsonValue)
        ensures
            settings_matches_json(*self, r),
            settings_json_wf(r),
    {
        let mut fields: Vec<(String, JsonValue)> = Vec::new();
        fields.push((String::from_str("model_name"), JsonValue::Str(self.model_name.clone())));
        fields.push((String::from_str("show_thinking"), JsonValue::Bool(self.show_thinking)));
        fields.push((String::from_str("model_seed"), JsonValue::Int(self.model_seed as i64)));
        fields.push(
            (String::from_str("model_temperature"), JsonValue::Int(self.model_temperature as i64)),
        );
        fields.push(
            (
                String::from_str("model_system_prompt"),
                JsonValue::Str(self.model_system_prompt.clone()),
            ),
        );
        fields.push(
            (String::from_str("verbose_tool_calls"), JsonValue::Bool(self.verbose_tool_calls)),
        );
        fields.push(
            (String::from_str("tool_confirmation"), JsonValue::Bool(self.tool_confirmation)),
        );
        fields.push((String::from_str("auto_save_config"), JsonValue::Bool(self.auto_save_config)));
        fields.push(
            (String::from_str("config_file_path"), JsonValue::Str(self.config_file_path.clone())),
        );
        let r = JsonValue::Obj(fields);
        proof {
            reveal_settings_keys();
            let fs = r->Obj_0@;
            assert(obj_get(fs, "model_name"@) == Some(fs[0].1));
            assert(obj_get(fs.skip(1), "show_thinking"@) == Some(fs[1].1));
            assert(obj_get(fs, "show_thinking"@) == Some(fs[1].1)) by {
                crate::json::lemma_obj_get_skip(fs, "show_thinking"@, 1);
            }
            assert(obj_get(fs.skip(2), "model_seed"@) == Some(fs[2].1));
            assert(obj_get(fs, "model_seed"@) == Some(fs[2].1)) by {
                crate::json::lemma_obj_get_skip(fs, "model_seed"@, 2);
            }
            assert(obj_get(fs.skip(3), "model_temperature"@) == Some(fs[3].1));
            assert(obj_get(fs, "model_temperature"@) == Some(fs[3].1)) by {
                crate::json::lemma_obj_get_skip(fs, "model_temperature"@, 3);
            }
            assert(obj_get(fs.skip(4), "model_system_prompt"@) == Some(fs[4].1));
            assert(obj_get(fs, "model_system_prompt"@) == Some(fs[4].1)) by {
                crate::json::lemma_obj_get_skip(fs, "model_system_prompt"@, 4);
            }
            assert(obj_get(fs.skip(5), "verbose_tool_calls"@) == Some(fs[5].1));
            assert(obj_get(fs, "verbose_tool_calls"@) == Some(fs[5].1)) by {
                crate::json::lemma_obj_get_skip(fs, "verbose_tool_calls"@, 5);
            }
            assert(obj_get(fs.skip(6), "tool_confirmation"@) == Some(fs[6].1));
            assert(obj_get(fs, "tool_confirmation"@) == Some(fs[6].1)) by {
                crate::json::lemma_obj_get_skip(fs, "tool_confirmation"@, 6);
            }
            assert(obj_get(fs.skip(7), "auto_save_config"@) == Some(fs[7].1));
            assert(obj_get(fs, "auto_save_config"@) == Some(fs[7].1)) by {
                crate::json::lemma_obj_get_skip(fs, "auto_save_config"@, 7);
            }
            assert(obj_get(fs.skip(8), "config_file_path"@) == Some(fs[8].1));
            assert(obj_get(fs, "config_file_path"@) == Some(fs[8].1)) by {
                crate::json::lemma_obj_get_skip(fs, "config_file_path"@, 8);
            }
            assert(settings_matches_json(*self, r));
        }
        r
    }

    /// The settings held by a JSON document, when it has the expected
    /// shape: every field present under its name with the right type and
    /// numbers in range. Nothing is read from a document that lacks a
    /// field or types one wrongly.
    pub fn from_json(v: &JsonValue) -> (r: Option<SettingsManager>)
        ensures
            match r {
                Some(s) => settings_matches_json(s, *v),
                None => !settings_json_wf(*v),
            },
    {
        let model_name = match v.get("model_name") {
            Some(f) => match f.as_str() {
                Some(x) => x.clone(),
                None => {
                    return None;
                },
            },
            None => {
                return None;
            },
        };
        let show_thinking = match v.get("show_thinking") {
            Some(f) => match f.as_bool() {
                Some(x) => x,
                None => {
                    return None;
                },
            },
            None => {
                return None;
            },
        };
        let model_seed = match v.get("model_seed") {
            Some(f) => match f.as_int() {
                Some(x) => {
                    if x < i32::MIN as i64 || x > i32::MAX as i64 {
                        return None;
                    }
                    x as i32
                },
                None => {
                    return None;
                },
            },
            None => {
                return None;
            },
        };
        let model_temperature = match v.get("model_temperature") {
            Some(f) => match f.as_int() {
                Some(x) => {
                    if x < i32::MIN as i64 || x > i32::MAX as i64 {
                        return None;
                    }
                    x as i32
                },
                None => {
                    return None;
                },
            },
            None => {
                return None;
            },
        };
        let model_system_prompt = match v.get("model_system_prompt") {
            Some(f) => match f.as_str() {
                Some(x) => x.clone(),
                None => {
                    return None;
                },
            },
            None => {
                return None;
            },
        };
        let verbose_tool_calls = match v.get("verbose_tool_calls") {
            Some(f) => match f.as_bool() {
                Some(x) => x,
                None => {
                    return None;
                },
            },
            None => {
                return None;
            },
        };
        let tool_confirmation = match v.get("tool_confirmation") {
            Some(f) => match f.as_bool() {
                Some(x) => x,
                None => {
                    return None;
                },
            },
            None => {
                return None;
            },
        };
        let auto_save_config = match v.get("auto_save_config") {
            Some(f) => match f.as_bool() {
                Some(x) => x,
                None => {
                    return None;
                },
            },
            None => {
                return None;
            },
        };
        let config_file_path = match v.get("config_file_path") {
            Some(f) => match f.as_str() {
                Some(x) => x.clone(),
                None => {
                    return None;
                },
            },
            None => {
                return None;
            },
        };
        let s = SettingsManager {
            model_name,
            show_thinking,
            model_seed,
            model_temperature,
            model_system_prompt,
            verbose_tool_calls,
            tool_confirmation,
            auto_save_config,
            config_file_path,
        };
        Some(s)
    }
}

/// The ASCII-uppercased form of a character.
pub open spec fn spec_ascii_upper(c: char) -> char {
    if 'a' <= c && c <= 'z' {
        (((c as u8) - 32) as char)
    } else {
        c
    }
}

/// A settings key made readable: underscores become spaces and the first
/// letter of each word is uppercased.
pub open spec fn spec_format_key(s: Seq<char>) -> Seq<char> {
    Seq::new(
        s.len(),
        |i: int|
            if s[i] == '_' {
                ' '
            } else if i == 0 || s[i - 1] == '_' {
                spec_ascii_upper(s[i])
            } else {
                s[i]
            },
    )
}

/// Makes a settings key readable: underscores become spaces and the first
/// letter of each word is uppercased.
pub fn format_settings_key(key: String) -> (r: String)
    ensures
        r@ == spec_format_key(key@),
{
    let s = key.as_str();
    let n = s.unicode_len();
    let mut out = String::new();
    let mut i: usize = 0;
    while i < n
        invariant
            n == s@.len(),
            0 <= i <= n,
            out@ == spec_format_key(s@).subrange(0, i as int),
        decreases n - i,
    {
        let c = s.get_char(i);
        let mapped: char = if c == '_' {
            ' '
        } else if i == 0 || s.get_char(i - 1) == '_' {
            if 'a' <= c && c <= 'z' {
                ((c as u8) - 32) as char
            } else {
                c
            }
        } else {
            c
        };
        push_char(&mut out, mapped);
        proof {
            assert(out@ =~= spec_format_key(s@).subrange(0, i + 1));
        }
        i = i + 1;
    }
    proof {
        assert(spec_format_key(s@).subrange(0, n as int) =~= spec_format_key(s@));
    }
    out
}

/// How a settings value is shown: booleans as colored Enabled or Disabled,
/// a missing or empty value as Not set, numbers in decimal, strings quoted,
/// and composite values behind a placeholder.
pub open spec fn spec_format_value(v: JsonValue) -> Seq<char> {
    match v {
        JsonValue::Bool(b) => if b {
            spec_colorize("Enabled"@, AnsiColor::BrightGreen)
        } else {
            spec_colorize("Disabled"@, AnsiColor::BrightRed)
        },
        JsonValue::Null => spec_colorize("Not set"@, AnsiColor::BrightBlack),
        JsonValue::Str(s) => if s@.len() == 0 {
            spec_colorize("Not set"@, AnsiColor::BrightBlack)
        } else {
            seq!['"'] + s@ + seq!['"']
        },
        JsonValue::Int(n) => spec_i64_digits(n as int),
        JsonValue::Arr(_) => "[...]"@,
        JsonValue::Obj(_) => "{...}"@,
    }
}

/// Formats one settings value for display.
pub fn format_settings_value(value: &JsonValue) -> (r: String)
    ensures
        r@ == spec_format_value(*value),
{
    match value {
        JsonValue::Bool(b) => if *b {
            colorize_text("Enabled", AnsiColor::BrightGreen)
        } else {
            colorize_text("Disabled", AnsiColor::BrightRed)
        },
        JsonValue::Null => colorize_text("Not set", AnsiColor::BrightBlack),
        JsonValue::Str(s) => {
            if s.as_str().unicode_len() == 0 {
                colorize_text("Not set", AnsiColor::BrightBlack)
            } else {
                let mut out = String::new();
                push_char(&mut out, '"');
                out.append(s.as_str());
                push_char(&mut out, '"');
                proof {
                    assert(out@ =~= seq!['"'] + s@ + seq!['"']);
                }
                out
            }
        },
        JsonValue::Int(n) => i64_to_string(*n),
        JsonValue::Arr(_) => String::from_str("[...]"),
        JsonValue::Obj(_) => String::from_str("{...}"),
    }
}

impl SettingsManager {
    /// Updates the field named `key` to the given value, if the key names a
    /// settings field and the value has its type; anything else changes
    /// nothing. The caller persists the settings afterwards when
    /// auto-saving is on.
    pub fn update_setting(&mut self, key: &str, value: JsonValue) -> (r: bool)
        ensures
            ({
                let updated_str = |k: Seq<char>| key@ == k && value is Str;
                let updated_bool = |k: Seq<char>| key@ == k && value is Bool;
                let updated_int = |k: Seq<char>|
                    key@ == k && value is Int && i32::MIN <= value->Int_0 <= i32::MAX;
                &&& final(self).model_name == (if updated_str("model_name"@) {
                    value->Str_0
                } else {
                    old(self).model_name
                })
                &&& final(self).show_thinking == (if updated_bool("show_thinking"@) {
                    value->Bool_0
                } else {
                    old(self).show_thinking
                })
                &&& final(self).model_seed == (if updated_int("model_seed"@) {
                    value->Int_0 as i32
                } else {
                    old(self).model_seed
                })
                &&& final(self).model_temperature == (if updated_int("model_temperature"@) {
                    value->Int_0 as i32
                } else {
                    old(self).model_temperature
                })
                &&& final(self).model_system_prompt == (if updated_str("model_system_prompt"@) {
                    value->Str_0
                } else {
                    old(self).model_system_prompt
                })
                &&& final(self).verbose_tool_calls == (if updated_bool("verbose_tool_calls"@) {
                    value->Bool_0
                } else {
                    old(self).verbose_tool_calls
                })
                &&& final(self).tool_confirmation == (if updated_bool("tool_confirmation"@) {
                    value->Bool_0
                } else {
                    old(self).tool_confirmation
                })
                &&& final(self).auto_save_config == (if updated_bool("auto_save_config"@) {
                    value->Bool_0
                } else {
                    old(self).auto_save_config
                })
                &&& final(self).config_file_path == (if updated_str("config_file_path"@) {
                    value->Str_0
                } else {
                    old(self).config_file_path
                })
                &&& r == (updated_str("model_name"@) || updated_bool("show_thinking"@)
                    || updated_int("model_seed"@) || updated_int("model_temperature"@)
                    || updated_str("model_system_prompt"@) || updated_bool("verbose_tool_calls"@)
                    || updated_bool("tool_confirmation"@) || updated_bool("auto_save_config"@)
                    || updated_str("config_file_path"@))
            }),
    {
        proof {
            reveal_settings_keys();
        }
        if str_eq(key, "model_name") {
            match value {
                JsonValue::Str(x) => {
                    self.model_name = x;
                    true
                },
                _ => false,
            }
        } else if str_eq(key, "show_thinking") {
            match value {
                JsonValue::Bool(b) => {
                    self.show_thinking = b;
                    true
                },
                _ => false,
            }
        } else if str_eq(key, "model_seed") {
            match value {
                JsonValue::Int(n) => {
                    if n >= i32::MIN as i64 && n <= i32::MAX as i64 {
                        self.model_seed = n as i32;
                        true
                    } else {
                        false
                    }
                },
                _ => false,
            }
        } else if str_eq(key, "model_temperature") {
            match value {
                JsonValue::Int(n) => {
                    if n >= i32::MIN as i64 && n <= i32::MAX as i64 {
                        self.model_temperature = n as i32;
                        true
                    } else {
                        false
                    }
                },
                _ => false,
            }
        } else if str_eq(key, "model_system_prompt") {
            match value {
                JsonValue::Str(x) => {
                    self.model_system_prompt = x;
                    true
                },
                _ => false,
            }
        } else if str_eq(key, "verbose_tool_calls") {
            match value {
                JsonValue::Bool(b) => {
                    self.verbose_tool_calls = b;
                    true
                },
                _ => false,
            }
        } else if str_eq(key, "tool_confirmation") {
            match value {
                JsonValue::Bool(b) => {
                    self.tool_confirmation = b;
                    true
                },
                _ => false,
            }
        } else if str_eq(key, "auto_save_config") {
            match value {
                JsonValue::Bool(b) => {
                    self.auto_save_config = b;
                    true
                },
                _ => false,
            }
        } else if str_eq(key, "config_file_path") {
            match value {
                JsonValue::Str(x) => {
                    self.config_file_path = x;
                    true
                },
                _ => false,
            }
        } else {
            false
        }
    }
}

/// The display form of a temperature kept in hundredths: the whole part,
/// a dot, and one or two fraction digits (a whole value shows a single
/// zero), with a minus sign ahead of a negative value.
pub open spec fn spec_temp_magnitude(m: nat) -> Seq<char> {
    let whole = m / 100;
    let frac = m % 100;
    if frac == 0 {
        crate::strutil::spec_u64_digits(whole) + seq!['.', '0']
    } else if frac % 10 == 0 {
        crate::strutil::spec_u64_digits(whole) + seq![
            '.',
            crate::strutil::spec_digit_char((frac / 10) as int),
        ]
    } else {
        crate::strutil::spec_u64_digits(whole) + seq![
            '.',
            crate::strutil::spec_digit_char((frac / 10) as int),
            crate::strutil::spec_digit_char((frac % 10) as int),
        ]
    }
}

/// The display form of a temperature kept in hundredths.
pub open spec fn spec_temperature_digits(n: int) -> Seq<char> {
    if n >= 0 {
        spec_temp_magnitude(n as nat)
    } else {
        seq!['-'] + spec_temp_magnitude((-n) as nat)
    }
}

/// Renders a temperature kept in hundredths as the fraction users expect.
pub fn format_temperature(n: i32) -> (r: String)
    ensures
        r@ == spec_temperature_digits(n as int),
{
    let mut out = String::new();
    let mag: u64 = if n >= 0 {
        n as u64
    } else {
        push_char(&mut out, '-');
        if n == i32::MIN {
            2147483648u64
        } else {
            (-n) as u64
        }
    };
    let whole = crate::strutil::u64_to_string(mag / 100);
    out.append(whole.as_str());
    push_char(&mut out, '.');
    let frac = mag % 100;
    if frac == 0 {
        push_char(&mut out, '0');
        proof {
            assert(out@ =~= spec_temperature_digits(n as int));
        }
    } else if frac % 10 == 0 {
        push_char(&mut out, crate::strutil::digit_char(frac / 10));
        proof {
            assert(out@ =~= spec_temperature_digits(n as int));
        }
    } else {
        push_char(&mut out, crate::strutil::digit_char(frac / 10));
        push_char(&mut out, crate::strutil::digit_char(frac % 10));
        proof {
            assert(out@ =~= spec_temperature_digits(n as int));
        }
    }
    out
}

/// What parsing an edited temperature returns: whole hundredths of the
/// decimal the user typed — digits, optionally a dot and one or two
/// fraction digits — when the value fits.
pub open spec fn spec_parse_temperature(s: Seq<char>) -> Option<int> {
    match crate::strutil::spec_split_once(s, '.') {
        None => if s.len() > 0 && crate::strutil::spec_all_digits(s)
            && crate::strutil::spec_dec_value(s) * 100 <= i32::MAX {
            Some(crate::strutil::spec_dec_value(s) * 100)
        } else {
            None
        },
        Some(p) => {
            let whole = p.0;
            let frac = p.1;
            if whole.len() > 0 && crate::strutil::spec_all_digits(whole) && 1 <= frac.len() <= 2
                && crate::strutil::spec_all_digits(frac) {
                let fv = if frac.len() == 1 {
                    crate::strutil::spec_dec_value(frac) * 10
                } else {
                    crate::strutil::spec_dec_value(frac)
                };
                if crate::strutil::spec_dec_value(whole) * 100 + fv <= i32::MAX {
                    Some(crate::strutil::spec_dec_value(whole) * 100 + fv)
                } else {
                    None
                }
            } else {
                None
            }
        },
    }
}

/// Parses an edited temperature into hundredths.
pub fn parse_temperature(s: &str) -> (r: Option<i32>)
    ensures
        match r {
            Some(v) => spec_parse_temperature(s@) == Some(v as int),
            None => spec_parse_temperature(s@) is None,
        },
{
    match crate::strutil::split_once_char(s, '.') {
        None => match crate::strutil::parse_dec_capped(s, 21474836) {
            Some(w) => Some((w as i32) * 100),
            None => None,
        },
        Some((whole, frac)) => {
            let fl = frac.as_str().unicode_len();
            if fl < 1 || fl > 2 {
                return None;
            }
            let fv: u64 = match crate::strutil::parse_dec_capped(frac.as_str(), 99) {
                Some(f) => if fl == 1 {
                    f * 10
                } else {
                    f
                },
                None => {
                    proof {
                        if crate::strutil::spec_all_digits(frac@) {
                            crate::strutil::lemma_dec_value_le_99(frac@);
                        }
                    }
                    return None;
                },
            };
            match crate::strutil::parse_dec_capped(whole.as_str(), 21474836) {
                Some(w) => {
                    let total: u64 = w * 100 + fv;
                    if total <= 2147483647 {
                        Some(total as i32)
                    } else {
                        None
                    }
                },
                None => None,
            }
        },
    }
}

/// Whether an edited value may be taken from the given input: a blank
/// input is refused for every field but the optional system prompt.
pub fn edit_input_accepted(key: &str, input: &str) -> (r: bool)
    ensures
        r == (input@.len() > 0 || key@ == "model_system_prompt"@),
{
    input.unicode_len() > 0 || str_eq(key, "model_system_prompt")
}

/// One settings row as printed: the readable key, a colon, and the
/// formatted value.
pub open spec fn spec_settings_line(key: Seq<char>, v: JsonValue) -> Seq<char> {
    spec_format_key(key) + ": "@ + spec_format_value(v) + "\n"@
}

/// The settings view's text: the fields grouped under their colored
/// category headings (the model, tool calls, configuration), blank rows
/// between the groups.
pub open spec fn spec_settings_content(s: SettingsManager) -> Seq<char> {
    spec_colorize("Model\n"@, AnsiColor::BrightYellow) + spec_settings_line(
        "model_name"@,
        JsonValue::Str(s.model_name),
    ) + spec_settings_line("show_thinking"@, JsonValue::Bool(s.show_thinking))
        + spec_settings_line("model_seed"@, JsonValue::Int(s.model_seed as i64))
        + spec_temperature_line(s.model_temperature as int)
        + spec_settings_line("model_system_prompt"@, JsonValue::Str(s.model_system_prompt))
        + "\n \n"@ + spec_colorize("Tool Calls\n"@, AnsiColor::BrightYellow) + spec_settings_line(
        "verbose_tool_calls"@,
        JsonValue::Bool(s.verbose_tool_calls),
    ) + spec_settings_line("tool_confirmation"@, JsonValue::Bool(s.tool_confirmation)) + "\n \n"@
        + spec_colorize("Configuration\n"@, AnsiColor::BrightYellow) + spec_settings_line(
        "auto_save_config"@,
        JsonValue::Bool(s.auto_save_config),
    ) + spec_settings_line("config_file_path"@, JsonValue::Str(s.config_file_path))
}

/// The temperature row as printed: its readable key and the fraction form
/// of the hundredths value.
pub open spec fn spec_temperature_line(n: int) -> Seq<char> {
    spec_format_key("model_temperature"@) + ": "@ + spec_temperature_digits(n) + "\n"@
}

fn push_temperature_line(out: &mut String, n: i32)
    ensures
        final(out)@ == old(out)@ + spec_temperature_line(n as int),
{
    let formatted_key = format_settings_key(String::from_str("model_temperature"));
    out.append(formatted_key.as_str());
    out.append(": ");
    let formatted_value = format_temperature(n);
    out.append(formatted_value.as_str());
    out.append("\n");
    proof {
        assert(out@ =~= old(out)@ + spec_temperature_line(n as int));
    }
}

fn push_settings_line(out: &mut String, key: &str, value: &JsonValue)
    ensures
        final(out)@ == old(out)@ + spec_settings_line(key@, *value),
{
    let formatted_key = format_settings_key(String::from_str(key));
    out.append(formatted_key.as_str());
    out.append(": ");
    let formatted_value = format_settings_value(value);
    out.append(formatted_value.as_str());
    out.append("\n");
    proof {
        assert(out@ =~= old(out)@ + spec_settings_line(key@, *value));
    }
}

impl SettingsManager {
    /// The settings keys, in the fixed order the edit menu offers them.
    pub fn settings_keys() -> (r: Vec<String>)
        ensures
            crate::strutil::strings_view(r@) == seq![
                "model_name"@,
                "show_thinking"@,
                "model_seed"@,
                "model_temperature"@,
                "model_system_prompt"@,
                "verbose_tool_calls"@,
                "tool_confirmation"@,
                "auto_save_config"@,
                "config_file_path"@,
            ],
    {
        let mut out: Vec<String> = Vec::new();
        out.push(String::from_str("model_name"));
        out.push(String::from_str("show_thinking"));
        out.push(String::from_str("model_seed"));
        out.push(String::from_str("model_temperature"));
        out.push(String::from_str("model_system_prompt"));
        out.push(String::from_str("verbose_tool_calls"));
        out.push(String::from_str("tool_confirmation"));
        out.push(String::from_str("auto_save_config"));
        out.push(String::from_str("config_file_path"));
        proof {
            assert(crate::strutil::strings_view(out@) =~= seq![
                "model_name"@,
                "show_thinking"@,
                "model_seed"@,
                "model_temperature"@,
                "model_system_prompt"@,
                "verbose_tool_calls"@,
                "tool_confirmation"@,
                "auto_save_config"@,
                "config_file_path"@,
            ]);
        }
        out
    }

    /// The edit menu's entries: one row per settings field, in the fixed
    /// key order, each showing the readable key and the current value.
    pub fn edit_menu_choices(&self) -> (r: Vec<crate::menu::MenuChoice>)
        ensures
            r@.len() == 9,
            r@[0].name@ == spec_settings_row(self, 0),
            r@[1].name@ == spec_settings_row(self, 1),
            r@[2].name@ == spec_settings_row(self, 2),
            r@[3].name@ == spec_settings_row(self, 3),
            r@[4].name@ == spec_settings_row(self, 4),
            r@[5].name@ == spec_settings_row(self, 5),
            r@[6].name@ == spec_settings_row(self, 6),
            r@[7].name@ == spec_settings_row(self, 7),
            r@[8].name@ == spec_settings_row(self, 8),
            forall|i: int| 0 <= i < 9 ==> (#[trigger] r@[i]).shortcut == '#',
    {
        let mut out: Vec<crate::menu::MenuChoice> = Vec::new();
        out.push(self.edit_choice_str("model_name", &self.model_name));
        out.push(self.edit_choice_bool("show_thinking", self.show_thinking));
        out.push(self.edit_choice_int("model_seed", self.model_seed));
        out.push(self.edit_choice_temperature());
        out.push(self.edit_choice_str("model_system_prompt", &self.model_system_prompt));
        out.push(self.edit_choice_bool("verbose_tool_calls", self.verbose_tool_calls));
        out.push(self.edit_choice_bool("tool_confirmation", self.tool_confirmation));
        out.push(self.edit_choice_bool("auto_save_config", self.auto_save_config));
        out.push(self.edit_choice_str("config_file_path", &self.config_file_path));
        out
    }

    fn edit_choice_str(&self, key: &str, value: &String) -> (r: crate::menu::MenuChoice)
        ensures
            r.name@ == spec_format_key(key@) + ": "@ + spec_format_value(JsonValue::Str(*value)),
            r.shortcut == '#',
    {
        let mut name = format_settings_key(String::from_str(key));
        name.append(": ");
        let v = format_settings_value(&JsonValue::Str(value.clone()));
        name.append(v.as_str());
        crate::menu::MenuChoice { name, shortcut: '#' }
    }

    fn edit_choice_bool(&self, key: &str, value: bool) -> (r: crate::menu::MenuChoice)
        ensures
            r.name@ == spec_format_key(key@) + ": "@ + spec_format_value(JsonValue::Bool(value)),
            r.shortcut == '#',
    {
        let mut name = format_settings_key(String::from_str(key));
        name.append(": ");
        let v = format_settings_value(&JsonValue::Bool(value));
        name.append(v.as_str());
        crate::menu::MenuChoice { name, shortcut: '#' }
    }

    fn edit_choice_temperature(&self) -> (r: crate::menu::MenuChoice)
        ensures
            r.name@ == spec_format_key("model_temperature"@) + ": "@ + spec_temperature_digits(
                self.model_temperature as int,
            ),
            r.shortcut == '#',
    {
        let mut name = format_settings_key(String::from_str("model_temperature"));
        name.append(": ");
        let v = format_temperature(self.model_temperature);
        name.append(v.as_str());
        crate::menu::MenuChoice { name, shortcut: '#' }
    }

    fn edit_choice_int(&self, key: &str, value: i32) -> (r: crate::menu::MenuChoice)
        ensures
            r.name@ == spec_format_key(key@) + ": "@ + spec_format_value(
                JsonValue::Int(value as i64),
            ),
            r.shortcut == '#',
    {
        let mut name = format_settings_key(String::from_str(key));
        name.append(": ");
        let v = format_settings_value(&JsonValue::Int(value as i64));
        name.append(v.as_str());
        crate::menu::MenuChoice { name, shortcut: '#' }
    }

    /// Renders the settings, grouped by category, either plain or boxed
    /// under the Settings title.
    pub fn render_settings(&self, boxed: bool) -> (r: String)
        ensures
            !boxed ==> r@ == spec_settings_content(*self),
            boxed ==> exists|tw: int|
                1 <= tw <= u16::MAX && r@ == crate::render::spec_render_box(
                    spec_settings_content(*self),
                    Some("Settings"@),
                    Some(AnsiColor::BrightYellow),
                    false,
                    tw,
                ),
    {
        let mut content = colorize_text("Model\n", AnsiColor::BrightYellow);
        push_settings_line(&mut content, "model_name", &JsonValue::Str(self.model_name.clone()));
        push_settings_line(&mut content, "show_thinking", &JsonValue::Bool(self.show_thinking));
        push_settings_line(&mut content, "model_seed", &JsonValue::Int(self.model_seed as i64));
        push_temperature_line(&mut content, self.model_temperature);
        push_settings_line(
            &mut content,
            "model_system_prompt",
            &JsonValue::Str(self.model_system_prompt.clone()),
        );
        content.append("\n \n");
        let tool_heading = colorize_text("Tool Calls\n", AnsiColor::BrightYellow);
        content.append(tool_heading.as_str());
        push_settings_line(
            &mut content,
            "verbose_tool_calls",
            &JsonValue::Bool(self.verbose_tool_calls),
        );
        push_settings_line(
            &mut content,
            "tool_confirmation",
            &JsonValue::Bool(self.tool_confirmation),
        );
        content.append("\n \n");
        let config_heading = colorize_text("Configuration\n", AnsiColor::BrightYellow);
        content.append(config_heading.as_str());
        push_settings_line(
            &mut content,
            "auto_save_config",
            &JsonValue::Bool(self.auto_save_config),
        );
        push_settings_line(
            &mut content,
            "config_file_path",
            &JsonValue::Str(self.config_file_path.clone()),
        );
        proof {
            assert(content@ =~= spec_settings_content(*self));
        }
        if boxed {
            let b = crate::render::RoundedBox::new(
                content.as_str(),
                Some("Settings"),
                Some(AnsiColor::BrightYellow),
                false,
            );
            let r = b.render();
            proof {
                let tw = choose|tw: int|
                    1 <= tw <= u16::MAX && r@ == crate::render::spec_render_box(
                        b.text@,
                        crate::render::opt_str_view(b.title),
                        b.color,
                        b.center,
                        tw,
                    );
                assert(r@ == crate::render::spec_render_box(
                    spec_settings_content(*self),
                    Some("Settings"@),
                    Some(AnsiColor::BrightYellow),
                    false,
                    tw,
                ));
            }
            r
        } else {
            content
        }
    }
}

/// The edit menu's row for the field at the given position in the fixed key
/// order.
pub open spec fn spec_settings_row(s: &SettingsManager, i: int) -> Seq<char> {
    if i == 0 {
        spec_format_key("model_name"@) + ": "@ + spec_format_value(JsonValue::Str(s.model_name))
    } else if i == 1 {
        spec_format_key("show_thinking"@) + ": "@ + spec_format_value(
            JsonValue::Bool(s.show_thinking),
        )
    } else if i == 2 {
        spec_format_key("model_seed"@) + ": "@ + spec_format_value(
            JsonValue::Int(s.model_seed as i64),
        )
    } else if i == 3 {
        spec_format_key("model_temperature"@) + ": "@ + spec_temperature_digits(
            s.model_temperature as int,
        )
    } else if i == 4 {
        spec_format_key("model_system_prompt"@) + ": "@ + spec_format_value(
            JsonValue::Str(s.model_system_prompt),
        )
    } else if i == 5 {
        spec_format_key("verbose_tool_calls"@) + ": "@ + spec_format_value(
            JsonValue::Bool(s.verbose_tool_calls),
        )
    } else if i == 6 {
        spec_format_key("tool_confirmation"@) + ": "@ + spec_format_value(
            JsonValue::Bool(s.tool_confirmation),
        )
    } else if i == 7 {
        spec_format_key("auto_save_config"@) + ": "@ + spec_format_value(
            JsonValue::Bool(s.auto_save_config),
        )
    } else {
        spec_format_key("config_file_path"@) + ": "@ + spec_format_value(
            JsonValue::Str(s.config_file_path),
        )
    }
}

impl crate::present::AppUIRenderable for SettingsManager {
    fn render(&self, boxed: bool) -> String {
        self.render_settings(boxed)
    }
}

/// Settings JSON round-trip: any two settings that one JSON document holds
/// agree on every field, so serializing settings and parsing the result
/// gives the settings back, for every combination of field values.
pub proof fn lemma_settings_json_roundtrip(s1: SettingsManager, s2: SettingsManager, v: JsonValue)
    requires
        settings_matches_json(s1, v),
        settings_matches_json(s2, v),
    ensures
        s1.model_name@ == s2.model_name@,
        s1.show_thinking == s2.show_thinking,
        s1.model_seed == s2.model_seed,
        s1.model_temperature == s2.model_temperature,
        s1.model_system_prompt@ == s2.model_system_prompt@,
        s1.verbose_tool_calls == s2.verbose_tool_calls,
        s1.tool_confirmation == s2.tool_confirmation,
        s1.auto_save_config == s2.auto_save_config,
        s1.config_file_path@ == s2.config_file_path@,
{
}

} // verus!
