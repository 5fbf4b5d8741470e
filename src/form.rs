use vstd::prelude::*;
use crate::format::ImageSettings;
use crate::text::{chars_equal, chars_of, parse_unsigned, parse_unsigned_spec};

verus! {

/// A target resolution as written in a form: `width,height`.
#[derive(Clone, Copy, Debug)]
pub struct Resolution(pub Option<(u32, u32)>);

/// The session that a conversion request reports its progress to.
#[derive(Clone, Debug)]
pub struct SessionQuery {
    pub session_id: String,
}

/// The settings fields of an upload form, as they arrive.
#[derive(Debug)]
pub struct ImageSettingsForm {
    pub resolution: Resolution,
    pub keep_aspect_ratio: bool,
    pub quality: Option<u8>,
    pub compression: Option<u8>,
    pub format: String,
}

pub open spec fn count_char(s: Seq<char>, c: char) -> nat
    decreases s.len(),
{
    if s.len() == 0 {
        0
    } else {
        count_char(s.drop_last(), c) + if s.last() == c { 1nat } else { 0nat }
    }
}

/// The index of the last `c` in `s`, or -1.
pub open spec fn last_index(s: Seq<char>, c: char) -> int
    decreases s.len(),
{
    if s.len() == 0 {
        -1
    } else if s.last() == c {
        s.len() - 1
    } else {
        last_index(s.drop_last(), c)
    }
}

/// `width,height`: exactly one comma, and an unsigned 32-bit integer on each
/// side of it.
pub open spec fn resolution_spec(s: Seq<char>) -> Option<(u32, u32)> {
    let p = last_index(s, ',');
    if count_char(s, ',') == 1 && 0 <= p {
        match (parse_unsigned_spec(s.subrange(0, p), u32::MAX as nat),
               parse_unsigned_spec(s.subrange(p + 1, s.len() as int), u32::MAX as nat)) {
            (Some(w), Some(h)) => Some((w as u32, h as u32)),
            _ => None,
        }
    } else {
        None
    }
}

proof fn lemma_last_index_bounds(s: Seq<char>, c: char)
    ensures
        -1 <= last_index(s, c) < s.len(),
        last_index(s, c) >= 0 ==> s[last_index(s, c)] == c,
        count_char(s, c) > 0 ==> last_index(s, c) >= 0,
    decreases s.len(),
{
    if s.len() > 0 {
        lemma_last_index_bounds(s.drop_last(), c);
    }
}

/// Reads `width,height`; any other text gives `None`.
pub fn parse_resolution(text: &str) -> (r: Option<(u32, u32)>)
    ensures
        r == resolution_spec(text@),
{
    let s = chars_of(text);
    let mut count: usize = 0;
    let mut last: usize = 0;
    let mut found = false;
    let mut i: usize = 0;
    while i < s.len()
        invariant
            i <= s@.len(),
            count as nat == count_char(s@.subrange(0, i as int), ','),
            count <= i,
            found <==> last_index(s@.subrange(0, i as int), ',') >= 0,
            found ==> last as int == last_index(s@.subrange(0, i as int), ','),
        decreases s@.len() - i,
    {
        let ghost pre = s@.subrange(0, i as int);
        assert(s@.subrange(0, i + 1).drop_last() =~= pre);
        proof {
            lemma_last_index_bounds(pre, ',');
        }
        if s[i] == ',' {
            count = count + 1;
            last = i;
            found = true;
        }
        i = i + 1;
    }
    assert(s@.subrange(0, i as int) =~= s@);
    proof {
        lemma_last_index_bounds(s@, ',');
    }
    if count != 1 || !found {
        return None;
    }
    let w = parse_unsigned(&s, 0, last, 0xffff_ffff);
    let h = parse_unsigned(&s, last + 1, s.len(), 0xffff_ffff);
    match (w, h) {
        (Some(w), Some(h)) => Some((w as u32, h as u32)),
        _ => None,
    }
}

pub open spec fn is_control(c: char) -> bool {
    (c as u32) < 0x20
}

/// What the resolution field of a form gives: text that holds a quote, a
/// backslash or a control character is not read as a string at all.
pub open spec fn resolution_field_spec(s: Seq<char>) -> Option<(u32, u32)> {
    if exists|i: int| 0 <= i < s.len() && (s[i] == '"' || s[i] == '\\' || is_control(#[trigger] s[i])) {
        None
    } else {
        resolution_spec(s)
    }
}

impl Resolution {
    /// The resolution that a form field holds; `Resolution(None)` where the
    /// text is not `width,height`.
    pub fn from_field(text: &str) -> (r: Resolution)
        ensures
            r.0 == resolution_field_spec(text@),
    {
        let s = chars_of(text);
        let mut i: usize = 0;
        while i < s.len()
            invariant
                i <= s@.len(),
                s@ == text@,
                forall|j: int| 0 <= j < i ==> !(s@[j] == '"' || s@[j] == '\\' || is_control(#[trigger] s@[j])),
            decreases s@.len() - i,
        {
            let c = s[i];
            if c == '"' || c == '\\' || (c as u32) < 0x20 {
                return Resolution(None);
            }
            i = i + 1;
        }
        Resolution(parse_resolution(text))
    }
}

pub open spec fn word_format() -> Seq<char> {
    seq!['f', 'o', 'r', 'm', 'a', 't']
}

pub open spec fn word_quality() -> Seq<char> {
    seq!['q', 'u', 'a', 'l', 'i', 't', 'y']
}

pub open spec fn word_compression() -> Seq<char> {
    seq!['c', 'o', 'm', 'p', 'r', 'e', 's', 's', 'i', 'o', 'n']
}

pub open spec fn word_keep_aspect_ratio() -> Seq<char> {
    seq!['k', 'e', 'e', 'p', '_', 'a', 's', 'p', 'e', 'c', 't', '_', 'r', 'a', 't', 'i', 'o']
}

pub open spec fn word_resolution() -> Seq<char> {
    seq!['r', 'e', 's', 'o', 'l', 'u', 't', 'i', 'o', 'n']
}

pub open spec fn word_true() -> Seq<char> {
    seq!['t', 'r', 'u', 'e']
}

/// A small unsigned integer field: its value when the text is one, else none.
pub open spec fn byte_field_spec(s: Seq<char>) -> Option<u8> {
    match parse_unsigned_spec(s, u8::MAX as nat) {
        Some(v) => Some(v as u8),
        None => None,
    }
}


fn byte_field(text: &str) -> (r: Option<u8>)
    ensures
        r == byte_field_spec(text@),
{
    let s = chars_of(text);
    assert(s@.subrange(0, s@.len() as int) =~= s@);
    match parse_unsigned(&s, 0, s.len(), 255) {
        Some(v) => Some(v as u8),
        None => None,
    }
}

impl ImageSettingsForm {
    /// An empty form: no resolution, no quality or compression, aspect ratio
    /// not kept, an empty format name.
    pub fn new() -> (r: Self)
        ensures
            r.resolution.0 is None,
            !r.keep_aspect_ratio,
            r.quality is None,
            r.compression is None,
            r.format@.len() == 0,
    {
        ImageSettingsForm {
            resolution: Resolution(None),
            keep_aspect_ratio: false,
            quality: None,
            compression: None,
            format: String::new(),
        }
    }

    /// Records the text of the form field `name`. Unknown fields are ignored;
    /// a number that does not read as one leaves its field empty.
    pub fn apply_field(&mut self, name: &str, text: &str)
        ensures
            name@ == word_format() ==> final(self).format@ == text@
                && final(self).resolution == old(self).resolution
                && final(self).keep_aspect_ratio == old(self).keep_aspect_ratio
                && final(self).quality == old(self).quality
                && final(self).compression == old(self).compression,
            name@ != word_format() ==> final(self).format == old(self).format,
            name@ == word_quality() ==> final(self).quality == byte_field_spec(text@),
            name@ != word_quality() ==> final(self).quality == old(self).quality,
            name@ == word_compression() ==> final(self).compression == byte_field_spec(text@),
            name@ != word_compression() ==> final(self).compression == old(self).compression,
            name@ == word_keep_aspect_ratio() ==> final(self).keep_aspect_ratio == (text@ == word_true()),
            name@ != word_keep_aspect_ratio() ==> final(self).keep_aspect_ratio == old(self).keep_aspect_ratio,
            name@ == word_resolution() ==> final(self).resolution.0 == resolution_field_spec(text@),
            name@ != word_resolution() ==> final(self).resolution == old(self).resolution,
    {
        let n = chars_of(name);
        if chars_equal(&n, &vec!['f', 'o', 'r', 'm', 'a', 't']) {
            self.format = text.to_owned();
        } else if chars_equal(&n, &vec!['q', 'u', 'a', 'l', 'i', 't', 'y']) {
            self.quality = byte_field(text);
        } else if chars_equal(&n, &vec!['c', 'o', 'm', 'p', 'r', 'e', 's', 's', 'i', 'o', 'n']) {
            self.compression = byte_field(text);
        } else if chars_equal(&n, &vec!['k', 'e', 'e', 'p', '_', 'a', 's', 'p', 'e', 'c', 't', '_', 'r', 'a', 't', 'i', 'o']) {
            let t = chars_of(text);
            self.keep_aspect_ratio = chars_equal(&t, &vec!['t', 'r', 'u', 'e']);
        } else if chars_equal(&n, &vec!['r', 'e', 's', 'o', 'l', 'u', 't', 'i', 'o', 'n']) {
            self.resolution = Resolution::from_field(text);
        }
    }

    /// The job settings that the form holds.
    pub fn into_settings(self) -> (r: ImageSettings)
        ensures
            r.format == self.format,
            r.resolution == self.resolution.0,
            r.keep_aspect_ratio == self.keep_aspect_ratio,
            r.quality == self.quality,
            r.compression == self.compression,
    {
        ImageSettings {
            format: self.format,
            resolution: self.resolution.0,
            keep_aspect_ratio: self.keep_aspect_ratio,
            quality: self.quality,
            compression: self.compression,
        }
    }
}

} // verus!
