//! Per-field option overrides and the scanner for the option comment's
//! payload.
//!
//! The payload is a list of `key[=value]` entries. A `key=...` entry
//! overrides the field's serialization key (a value wrapped in double
//! quotes may hold spaces; the quotes are not part of the key); a bare
//! `enum` entry reclassifies the field's type as an enum reference. Any
//! other entry is ignored.

use vstd::prelude::*;

use crate::model::OptionsModel;
use crate::text::find_char;
use crate::text::find_from;
use crate::text::find_word;
use crate::text::find_word_from;
use crate::text::lemma_find_from_bounds;
use crate::text::lemma_find_word_from_bounds;
use crate::text::lemma_nonws_run_end_bounds;
use crate::text::lemma_word_run_end_bounds;
use crate::text::nonws_run;
use crate::text::nonws_run_end;
use crate::text::str_eq;
use crate::text::word_run;
use crate::text::word_run_end;

verus! {

broadcast use {
    lemma_find_from_bounds,
    lemma_find_word_from_bounds,
    lemma_nonws_run_end_bounds,
    lemma_word_run_end_bounds,
};

/// Drops one pair of surrounding double quotes, if both are present.
pub open spec fn strip_quotes(raw: Seq<char>) -> Seq<char> {
    if raw.len() >= 2 && raw[0] == '"' && raw[raw.len() - 1] == '"' {
        raw.subrange(1, raw.len() - 1)
    } else {
        raw
    }
}

/// One pass of the payload scanner, from position `i`, with the entries
/// recognized so far. Each step finds the next `word` token; a following
/// `=` introduces a value, taken as a quoted span when one opens and
/// closes, else as the next non-whitespace run.
pub open spec fn opts_scan(s: Seq<char>, i: int, key: Option<Seq<char>>, en: bool) -> OptionsModel
    decreases s.len() - i,
{
    let w0 = find_word_from(s, i);
    if i < 0 || i > s.len() || w0 >= s.len() {
        OptionsModel { key, is_enum: en }
    } else {
        let w1 = word_run_end(s, w0);
        let word = s.subrange(w0, w1);
        if w1 < s.len() && s[w1] == '=' {
            let q = find_from(s, '"', w1 + 2);
            if w1 + 1 < s.len() && s[w1 + 1] == '"' && q < s.len() && q > w1 + 2 {
                let val = s.subrange(w1 + 2, q);
                opts_scan(s, q + 1, if word == "key"@ { Some(val) } else { key }, en)
            } else {
                let v1 = nonws_run_end(s, w1 + 1);
                if v1 > w1 + 1 {
                    let val = strip_quotes(s.subrange(w1 + 1, v1));
                    opts_scan(s, v1, if word == "key"@ { Some(val) } else { key }, en)
                } else {
                    opts_scan(s, w1, key, if word == "enum"@ { true } else { en })
                }
            }
        } else {
            opts_scan(s, w1, key, if word == "enum"@ { true } else { en })
        }
    }
}

/// The options encoded by a full option-comment payload.
pub open spec fn spec_options(s: Seq<char>) -> OptionsModel {
    opts_scan(s, 0, None, false)
}

/// Option overrides attached to one field by its preceding option comment.
pub struct FieldOptions {
    /// Explicit serialization-key override.
    pub key: Option<String>,
    /// Reclassifies an otherwise-textual type as an enum reference.
    pub is_enum: bool,
}

impl View for FieldOptions {
    type V = OptionsModel;

    open spec fn view(&self) -> OptionsModel {
        OptionsModel { key: self.key.deep_view(), is_enum: self.is_enum }
    }
}

impl DeepView for FieldOptions {
    type V = OptionsModel;

    open spec fn deep_view(&self) -> OptionsModel {
        self.view()
    }
}

impl FieldOptions {
    pub fn new(key: Option<String>, is_enum: bool) -> (r: Self)
        ensures
            r@ == (OptionsModel { key: key.deep_view(), is_enum }),
    {
        Self { key, is_enum }
    }

    /// Scans an option comment's payload for recognized entries.
    pub fn from_string(value: &str) -> (r: Self)
        ensures
            r@ == spec_options(value@),
    {
        Self::scan(value, 0, None, false)
    }

    fn scan(value: &str, i: usize, key: Option<String>, en: bool) -> (r: Self)
        requires
            i <= value@.len(),
        ensures
            r@ == opts_scan(value@, i as int, key.deep_view(), en),
        decreases value@.len() - i,
    {
        let n = value.unicode_len();
        let w0 = find_word(value, i);
        if w0 >= n {
            return Self { key, is_enum: en };
        }
        let w1 = word_run(value, w0);
        let word = value.substring_char(w0, w1);
        if w1 < n && value.get_char(w1) == '=' {
            if w1 + 1 < n && value.get_char(w1 + 1) == '"' {
                let q = find_char(value, '"', w1 + 2);
                if q < n && q > w1 + 2 {
                    let val = value.substring_char(w1 + 2, q);
                    let nk = if str_eq(word, "key") {
                        Some(String::from_str(val))
                    } else {
                        key
                    };
                    return Self::scan(value, q + 1, nk, en);
                }
            }
            let v1 = nonws_run(value, w1 + 1);
            if v1 > w1 + 1 {
                let raw = value.substring_char(w1 + 1, v1);
                let rn = raw.unicode_len();
                let val: &str = if rn >= 2 && raw.get_char(0) == '"' && raw.get_char(rn - 1) == '"'
                {
                    raw.substring_char(1, rn - 1)
                } else {
                    raw
                };
                let nk = if str_eq(word, "key") {
                    Some(String::from_str(val))
                } else {
                    key
                };
                return Self::scan(value, v1, nk, en);
            }
            let ne = if str_eq(word, "enum") {
                true
            } else {
                en
            };
            return Self::scan(value, w1, key, ne);
        }
        let ne = if str_eq(word, "enum") {
            true
        } else {
            en
        };
        Self::scan(value, w1, key, ne)
    }
}

} // verus!
