//! Launch entries: parsing one configuration table into an immutable
//! entry, scoring an entry against a free-text query, and
//! substituting query parameters into the entry's name and action
//! target.

use crate::icon::{IconKey, IconType};
use crate::strutil;
use crate::strutil::{
    cased, contains_seq, is_space, lower_chars, percent_encoded, split_ws, starts_with_seq,
    subst_param, word_len,
};
use vstd::prelude::*;
use vstd::string::StringExecFns;

verus! {

/// Weight of a query whose first token equals the entry's keyword.
pub const FULL_KEYWORD_W: u32 = 100;

/// Weight of a token that is a substring of the entry name.
pub const PARTIAL_NAME_W: u32 = 3;

/// Weight of a token equal to the entry name.
pub const FULL_NAME_W: u32 = 10;

/// Weight of a token that is a substring of some tag.
pub const PARTIAL_TAG_W: u32 = 2;

/// Weight of a token that is a prefix of some tag.
pub const STARTSWITH_TAG_W: u32 = 4;

/// Weight of a token equal to some tag.
pub const FULL_TAG_W: u32 = 6;

/// A stable index into the store's entry sequence, valid for the
/// lifetime of one store.
pub type EntryId = usize;

/// Why an entry (and with it the whole store build) was rejected.
#[derive(Debug)]
pub enum Error {
    /// The value under the entry's name was not a table.
    BareKeyError(String),
    /// A field had the wrong type, or a field was given twice.
    ParseError(String),
    /// More than one of location, url and system was present.
    ConflictError(String),
}

/// How the query remainder is substituted into the entry.
#[derive(Debug, Clone, PartialEq, Eq, Hash)]
pub enum Keyword {
    /// No keyword: the name and target are used verbatim.
    NoKeyword,
    /// The remainder is substituted as typed.
    RawKeyword(String),
    /// The remainder is percent-encoded before substitution into the
    /// target.
    EscapedKeyword(String),
}

/// Abstract value of [`Keyword`].
pub enum KeywordData {
    NoKeyword,
    Raw(Seq<char>),
    Escaped(Seq<char>),
}

impl View for Keyword {
    type V = KeywordData;

    open spec fn view(&self) -> KeywordData {
        match self {
            Keyword::NoKeyword => KeywordData::NoKeyword,
            Keyword::RawKeyword(k) => KeywordData::Raw(k@),
            Keyword::EscapedKeyword(k) => KeywordData::Escaped(k@),
        }
    }
}

/// What triggering the entry does: open a file or URL, or run a
/// shell command.
#[derive(Debug, Clone, PartialEq, Eq, Hash)]
pub enum EntryType {
    FileEntry(String),
    SystemEntry(String),
}

/// Abstract value of [`EntryType`].
pub enum EntryTypeData {
    File(Seq<char>),
    System(Seq<char>),
}

impl View for EntryType {
    type V = EntryTypeData;

    open spec fn view(&self) -> EntryTypeData {
        match self {
            EntryType::FileEntry(s) => EntryTypeData::File(s@),
            EntryType::SystemEntry(s) => EntryTypeData::System(s@),
        }
    }
}

/// Abstract value of a [`StoreEntry`].
#[verifier::ext_equal]
pub struct EntryData {
    pub name: Seq<char>,
    pub description: Option<Seq<char>>,
    pub entry: EntryTypeData,
    pub tags: Seq<Seq<char>>,
    pub keyword: KeywordData,
    pub icon_type: IconKey,
    pub icon: Option<crate::icon::IconData>,
}

/// One parsed, immutable launch target.
#[derive(Debug)]
pub struct StoreEntry {
    name: String,
    description: Option<String>,
    entry: EntryType,
    tags: Vec<String>,
    keyword: Keyword,
    icon_type: IconType,
    icon: Option<crate::icon::Icon>,
}

impl View for StoreEntry {
    type V = EntryData;

    closed spec fn view(&self) -> EntryData {
        EntryData {
            name: self.name@,
            description: match &self.description {
                Option::Some(d) => Option::Some(d@),
                Option::None => Option::None,
            },
            entry: self.entry@,
            tags: self.tags.deep_view(),
            keyword: self.keyword@,
            icon_type: self.icon_type@,
            icon: match &self.icon {
                Option::Some(i) => Option::Some(i@),
                Option::None => Option::None,
            },
        }
    }
}

/// The larger of two weights.
pub open spec fn pick_max(a: u32, b: u32) -> u32 {
    if a >= b {
        a
    } else {
        b
    }
}

/// The smaller of two weights.
pub open spec fn pick_min(a: u32, b: u32) -> u32 {
    if a <= b {
        a
    } else {
        b
    }
}

/// Some tag equals the token.
pub open spec fn tag_full(tags: Seq<Seq<char>>, q: Seq<char>) -> bool {
    exists|i: int| 0 <= i < tags.len() && tags[i] == q
}

/// The token is a substring of some tag.
pub open spec fn tag_contains(tags: Seq<Seq<char>>, q: Seq<char>) -> bool {
    exists|i: int| 0 <= i < tags.len() && contains_seq(tags[i], q)
}

/// The token is a prefix of some tag.
pub open spec fn tag_starts(tags: Seq<Seq<char>>, q: Seq<char>) -> bool {
    exists|i: int| 0 <= i < tags.len() && starts_with_seq(tags[i], q)
}

/// The value of one query token against a (case-adjusted) name and
/// tag set: the largest applicable weight, 0 when nothing matches.
pub open spec fn token_value(name: Seq<char>, tags: Seq<Seq<char>>, q: Seq<char>) -> u32 {
    pick_max(
        if name == q {
            FULL_NAME_W
        } else {
            0
        },
        pick_max(
            if contains_seq(name, q) {
                PARTIAL_NAME_W
            } else {
                0
            },
            pick_max(
                if tag_full(tags, q) {
                    FULL_TAG_W
                } else {
                    0
                },
                pick_max(
                    if tag_contains(tags, q) {
                        PARTIAL_TAG_W
                    } else {
                        0
                    },
                    if tag_starts(tags, q) {
                        STARTSWITH_TAG_W
                    } else {
                        0
                    },
                ),
            ),
        ),
    )
}

/// Minimum token value over a token list (every token must match:
/// AND semantics); the identity on an empty list is the largest
/// weight.
pub open spec fn min_token_value(name: Seq<char>, tags: Seq<Seq<char>>, toks: Seq<Seq<char>>) -> u32
    decreases toks.len(),
{
    if toks.len() == 0 {
        0xffff_ffffu32
    } else {
        pick_min(token_value(name, tags, toks[0]), min_token_value(name, tags, toks.drop_first()))
    }
}

/// The score of an entry against a query.
///
/// When the query is entirely lowercase the comparison is
/// case-insensitive (both sides uppercased); otherwise it is literal.
/// The query splits into whitespace tokens; with no token the score
/// is 0.  Each token scores the largest applicable weight against
/// the name and tags, the tokens combine by minimum, and a first
/// token equal to the entry's keyword overrides everything with
/// `FULL_KEYWORD_W`.
pub open spec fn score_spec(e: EntryData, q: Seq<char>) -> u32 {
    let ins = q == lower_chars(q);
    let toks = split_ws(q).map_values(|t: Seq<char>| cased(ins, t));
    if toks.len() == 0 || toks[0].len() == 0 {
        0
    } else {
        let kw: u32 = match e.keyword {
            KeywordData::NoKeyword => 0,
            KeywordData::Raw(k) => if cased(ins, k) == toks[0] {
                FULL_KEYWORD_W
            } else {
                0
            },
            KeywordData::Escaped(k) => if cased(ins, k) == toks[0] {
                FULL_KEYWORD_W
            } else {
                0
            },
        };
        let ts = min_token_value(
            cased(ins, e.name),
            e.tags.map_values(|t: Seq<char>| cased(ins, t)),
            toks,
        );
        pick_max(ts, kw)
    }
}

/// Uppercases `s` when the comparison is case-insensitive, and
/// copies it verbatim otherwise.
fn cased_str(ins: bool, s: &str) -> (r: String)
    ensures
        r@ == cased(ins, s@),
{
    if ins {
        strutil::uppercase(s)
    } else {
        String::from_str(s)
    }
}

/// Some tag equals the token.
fn any_tag_eq(tags: &Vec<String>, q: &str) -> (r: bool)
    ensures
        r == tag_full(tags.deep_view(), q@),
{
    let mut i: usize = 0;
    while i < tags.len()
        invariant
            0 <= i <= tags@.len(),
            forall|k: int| 0 <= k < i ==> tags.deep_view()[k] != q@,
        decreases tags@.len() - i,
    {
        proof {
            assert(tags.deep_view()[i as int] == tags@[i as int]@);
        }
        if strutil::str_eq(tags[i].as_str(), q) {
            return true;
        }
        i += 1;
    }
    false
}

/// The token is a substring of some tag.
fn any_tag_contains(tags: &Vec<String>, q: &str) -> (r: bool)
    ensures
        r == tag_contains(tags.deep_view(), q@),
{
    let mut i: usize = 0;
    while i < tags.len()
        invariant
            0 <= i <= tags@.len(),
            forall|k: int| 0 <= k < i ==> !contains_seq(tags.deep_view()[k], q@),
        decreases tags@.len() - i,
    {
        proof {
            assert(tags.deep_view()[i as int] == tags@[i as int]@);
        }
        if strutil::str_contains(tags[i].as_str(), q) {
            return true;
        }
        i += 1;
    }
    false
}

/// The token is a prefix of some tag.
fn any_tag_starts(tags: &Vec<String>, q: &str) -> (r: bool)
    ensures
        r == tag_starts(tags.deep_view(), q@),
{
    let mut i: usize = 0;
    while i < tags.len()
        invariant
            0 <= i <= tags@.len(),
            forall|k: int| 0 <= k < i ==> !starts_with_seq(tags.deep_view()[k], q@),
        decreases tags@.len() - i,
    {
        proof {
            assert(tags.deep_view()[i as int] == tags@[i as int]@);
        }
        if strutil::str_starts_with(tags[i].as_str(), q) {
            return true;
        }
        i += 1;
    }
    false
}

/// The largest applicable weight of one token.
fn token_value_exec(name_c: &str, tags_c: &Vec<String>, q: &str) -> (r: u32)
    ensures
        r == token_value(name_c@, tags_c.deep_view(), q@),
{
    let v_full_name: u32 = if strutil::str_eq(name_c, q) {
        FULL_NAME_W
    } else {
        0
    };
    let v_part_name: u32 = if strutil::str_contains(name_c, q) {
        PARTIAL_NAME_W
    } else {
        0
    };
    let v_full_tag: u32 = if any_tag_eq(tags_c, q) {
        FULL_TAG_W
    } else {
        0
    };
    let v_part_tag: u32 = if any_tag_contains(tags_c, q) {
        PARTIAL_TAG_W
    } else {
        0
    };
    let v_pre_tag: u32 = if any_tag_starts(tags_c, q) {
        STARTSWITH_TAG_W
    } else {
        0
    };
    let m4 = if v_part_tag >= v_pre_tag {
        v_part_tag
    } else {
        v_pre_tag
    };
    let m3 = if v_full_tag >= m4 {
        v_full_tag
    } else {
        m4
    };
    let m2 = if v_part_name >= m3 {
        v_part_name
    } else {
        m3
    };
    if v_full_name >= m2 {
        v_full_name
    } else {
        m2
    }
}

impl StoreEntry {
    /// Scores this entry against a query, as [`score_spec`]
    /// describes.
    #[verifier::loop_isolation(false)]
    pub fn score(&self, searchtext: &str) -> (r: u32)
        ensures
            r == score_spec(self@, searchtext@),
    {
        let lower = strutil::lowercase(searchtext);
        let ins = strutil::str_eq(searchtext, lower.as_str());
        let ghost q = searchtext@;
        let ghost spec_toks = split_ws(q).map_values(|t: Seq<char>| cased(ins, t));
        let ghost spec_tags = self@.tags.map_values(|t: Seq<char>| cased(ins, t));

        let name_c = cased_str(ins, self.name.as_str());

        let mut tags_c: Vec<String> = Vec::new();
        let mut ti: usize = 0;
        while ti < self.tags.len()
            invariant
                0 <= ti <= self.tags@.len(),
                tags_c@.len() == ti,
                forall|k: int| 0 <= k < ti ==> tags_c.deep_view()[k] == cased(ins, self.tags@[k]@),
            decreases self.tags@.len() - ti,
        {
            let ghost pre_tags = tags_c@;
            let ghost pre_dv = tags_c.deep_view();
            tags_c.push(cased_str(ins, self.tags[ti].as_str()));
            proof {
                assert forall|k: int| 0 <= k < ti + 1 implies tags_c.deep_view()[k] == cased(
                    ins,
                    self.tags@[k]@,
                ) by {
                    assert(tags_c.deep_view()[k] == tags_c@[k].deep_view());
                    if k < ti {
                        assert(pre_dv[k] == cased(ins, self.tags@[k]@));
                        assert(pre_dv[k] == pre_tags[k].deep_view());
                        assert(tags_c@[k] == pre_tags[k]);
                    }
                }
            }
            ti += 1;
        }
        proof {
            assert(tags_c.deep_view() =~~= spec_tags);
        }

        let raw_toks = strutil::split_whitespace(searchtext);
        let mut toks: Vec<String> = Vec::new();
        let mut qi: usize = 0;
        while qi < raw_toks.len()
            invariant
                0 <= qi <= raw_toks@.len(),
                toks@.len() == qi,
                raw_toks.deep_view() == split_ws(q),
                forall|k: int| 0 <= k < qi ==> toks.deep_view()[k] == cased(ins, raw_toks@[k]@),
            decreases raw_toks@.len() - qi,
        {
            let ghost pre_toks = toks@;
            let ghost pre_dv = toks.deep_view();
            toks.push(cased_str(ins, raw_toks[qi].as_str()));
            proof {
                assert forall|k: int| 0 <= k < qi + 1 implies toks.deep_view()[k] == cased(
                    ins,
                    raw_toks@[k]@,
                ) by {
                    assert(toks.deep_view()[k] == toks@[k].deep_view());
                    if k < qi {
                        assert(pre_dv[k] == cased(ins, raw_toks@[k]@));
                        assert(pre_dv[k] == pre_toks[k].deep_view());
                        assert(toks@[k] == pre_toks[k]);
                    }
                }
            }
            qi += 1;
        }
        proof {
            assert(toks.deep_view() =~~= spec_toks);
        }

        if toks.len() == 0 {
            return 0;
        }
        if toks[0].as_str().unicode_len() == 0 {
            return 0;
        }
        assert(!(spec_toks.len() == 0 || spec_toks[0].len() == 0));

        let kw: u32 = match &self.keyword {
            Keyword::NoKeyword => 0,
            Keyword::RawKeyword(k) => {
                let kc = cased_str(ins, k.as_str());
                if strutil::str_eq(kc.as_str(), toks[0].as_str()) {
                    FULL_KEYWORD_W
                } else {
                    0
                }
            },
            Keyword::EscapedKeyword(k) => {
                let kc = cased_str(ins, k.as_str());
                if strutil::str_eq(kc.as_str(), toks[0].as_str()) {
                    FULL_KEYWORD_W
                } else {
                    0
                }
            },
        };

        let mut running: u32 = 0xffff_ffff;
        let mut i: usize = 0;
        proof {
            assert(spec_toks.skip(0) =~= spec_toks);
        }
        while i < toks.len()
            invariant
                0 <= i <= toks@.len(),
                pick_min(running, min_token_value(name_c@, spec_tags, spec_toks.skip(i as int)))
                    == min_token_value(name_c@, spec_tags, spec_toks),
            decreases toks@.len() - i,
        {
            proof {
                assert(toks.deep_view()[i as int] == toks@[i as int]@);
                assert(spec_toks.skip(i as int)[0] == spec_toks[i as int]);
                assert(spec_toks.skip(i as int).drop_first() =~= spec_toks.skip(i + 1));
            }
            let tv = token_value_exec(name_c.as_str(), &tags_c, toks[i].as_str());
            if tv < running {
                running = tv;
            }
            i += 1;
        }
        proof {
            assert(spec_toks.skip(toks@.len() as int) =~= Seq::<Seq<char>>::empty());
        }
        if running >= kw {
            running
        } else {
            kw
        }
    }
}

/// The parameter substituted for `%s`: everything after the first
/// whitespace character of the query, or the literal `%s` when the
/// query has no whitespace.
pub open spec fn query_param(q: Seq<char>) -> Seq<char> {
    if word_len(q) < q.len() {
        q.skip(word_len(q) + 1)
    } else {
        seq!['%', 's']
    }
}

/// Splits the query at its first whitespace character and yields the
/// remainder, defaulting to the literal `%s`.
#[verifier::loop_isolation(false)]
fn query_remainder(searchtext: &str) -> (r: String)
    ensures
        r@ == query_param(searchtext@),
{
    let n = searchtext.unicode_len();
    let mut j: usize = 0;
    while j < n && !strutil::char_is_space(searchtext.get_char(j))
        invariant
            0 <= j <= n,
            forall|k: int| 0 <= k < j ==> !is_space(searchtext@[k]),
        decreases n - j,
    {
        j += 1;
    }
    proof {
        strutil::lemma_word_len_of_run(searchtext@, j as int);
    }
    if j < n {
        searchtext.substring_char(j + 1, n).to_owned()
    } else {
        let r = String::from_str("%s");
        proof {
            reveal_strlit("%s");
            assert(r@ =~= seq!['%', 's']);
        }
        r
    }
}

/// The name shown for an entry: entries without a keyword show their
/// name verbatim; keyword entries substitute the query remainder for
/// each `%s`.
pub open spec fn format_name_spec(e: EntryData, q: Seq<char>) -> Seq<char> {
    match e.keyword {
        KeywordData::NoKeyword => e.name,
        KeywordData::Raw(_) => subst_param(e.name, query_param(q)),
        KeywordData::Escaped(_) => subst_param(e.name, query_param(q)),
    }
}

/// The string handed to the platform launcher: the action target,
/// with the query remainder substituted for each `%s` --
/// percent-encoded first when the keyword policy asks for escaping.
pub open spec fn format_selection_spec(e: EntryData, q: Seq<char>) -> Seq<char> {
    let target = match e.entry {
        EntryTypeData::File(s) => s,
        EntryTypeData::System(s) => s,
    };
    match e.keyword {
        KeywordData::NoKeyword => target,
        KeywordData::Raw(_) => subst_param(target, query_param(q)),
        KeywordData::Escaped(_) => subst_param(target, percent_encoded(query_param(q))),
    }
}

/// What triggering an entry asks the platform launcher to do.
#[derive(Debug, Clone, PartialEq, Eq)]
pub enum LaunchAction {
    /// Open this file or URL with the desktop's handler.
    OpenFile(String),
    /// Run this command in a shell.
    RunCommand(String),
}

impl StoreEntry {
    /// The display name for this entry under the current query.
    pub fn format_name(&self, searchtext: &str) -> (r: String)
        ensures
            r@ == format_name_spec(self@, searchtext@),
    {
        match &self.keyword {
            Keyword::NoKeyword => self.name.clone(),
            Keyword::RawKeyword(_) => {
                let p = query_remainder(searchtext);
                strutil::format_param(self.name.as_str(), p.as_str())
            },
            Keyword::EscapedKeyword(_) => {
                let p = query_remainder(searchtext);
                strutil::format_param(self.name.as_str(), p.as_str())
            },
        }
    }

    /// The launch string for this entry under the current query.
    pub fn format_selection(&self, searchtext: &str) -> (r: String)
        ensures
            r@ == format_selection_spec(self@, searchtext@),
    {
        let target = match &self.entry {
            EntryType::FileEntry(s) => s,
            EntryType::SystemEntry(s) => s,
        };
        match &self.keyword {
            Keyword::NoKeyword => target.clone(),
            Keyword::RawKeyword(_) => {
                let p = query_remainder(searchtext);
                strutil::format_param(target.as_str(), p.as_str())
            },
            Keyword::EscapedKeyword(_) => {
                let p = query_remainder(searchtext);
                let enc = strutil::percent_encode(p.as_str());
                strutil::format_param(target.as_str(), enc.as_str())
            },
        }
    }

    /// The launcher call that triggering this entry asks for: open
    /// the formatted target of a file entry, run the formatted
    /// command of a system entry.  The caller performs the action
    /// and propagates the launcher's error unchanged.
    pub fn handle_selection(&self, searchtext: &str) -> (r: LaunchAction)
        ensures
            match self@.entry {
                EntryTypeData::File(_) => (r matches LaunchAction::OpenFile(s) && s@
                    == format_selection_spec(self@, searchtext@)),
                EntryTypeData::System(_) => (r matches LaunchAction::RunCommand(s) && s@
                    == format_selection_spec(self@, searchtext@)),
            },
    {
        let selection = self.format_selection(searchtext);
        match &self.entry {
            EntryType::FileEntry(_) => LaunchAction::OpenFile(selection),
            EntryType::SystemEntry(_) => LaunchAction::RunCommand(selection),
        }
    }

    /// The identity under which this entry's icon is cached.
    pub fn icontype(&self) -> (r: &IconType)
        ensures
            r@ == self@.icon_type,
    {
        &self.icon_type
    }

    /// Stores the icon resolved for this entry.
    pub fn icon(&mut self, icon: crate::icon::Icon)
        ensures
            final(self)@ == (EntryData { icon: Some(icon@), ..old(self)@ }),
    {
        self.icon = Some(icon);
    }

    /// Whether an icon has been stored.
    pub fn icon_loaded(&self) -> (r: bool)
        ensures
            r == (self@.icon is Some),
    {
        self.icon.is_some()
    }

    /// The stored icon, if one arrived.
    pub fn current_icon(&self) -> (r: &Option<crate::icon::Icon>)
        ensures
            match r {
                Some(i) => self@.icon == Some(i@),
                None => self@.icon is None,
            },
    {
        &self.icon
    }

    /// The entry's display and query name.
    pub fn name(&self) -> (r: &String)
        ensures
            r@ == self@.name,
    {
        &self.name
    }

    /// The optional description text.
    pub fn description(&self) -> (r: &Option<String>)
        ensures
            match r {
                Some(d) => self@.description == Some(d@),
                None => self@.description is None,
            },
    {
        &self.description
    }

    /// The entry's action target.
    pub fn entry_type(&self) -> (r: &EntryType)
        ensures
            r@ == self@.entry,
    {
        &self.entry
    }

    /// The entry's tags.
    pub fn tags(&self) -> (r: &Vec<String>)
        ensures
            r.deep_view() == self@.tags,
    {
        &self.tags
    }

    /// The entry's keyword policy.
    pub fn keyword(&self) -> (r: &Keyword)
        ensures
            r@ == self@.keyword,
    {
        &self.keyword
    }

    /// Replaces the keyword policy, keeping everything else.
    pub fn set_keyword(&mut self, keyword: Keyword)
        ensures
            final(self)@ == (EntryData { keyword: keyword@, ..old(self)@ }),
    {
        self.keyword = keyword;
    }
}

/// Sizing for one shown result: the inherited text settings, and
/// the smaller size its description text is drawn at.
#[derive(Debug, Clone, Copy, PartialEq, Eq)]
pub struct EntrySettings {
    pub common: crate::ui::InheritedSettings,
    pub description_size: u16,
}

impl EntrySettings {
    /// Fills every unset value from the parent.
    pub fn propagate(&mut self, parent: &crate::ui::InheritedSettings)
        ensures
            final(self).common.spec_text_size() == (if old(self).common.spec_text_size() is None {
                parent.spec_text_size()
            } else {
                old(self).common.spec_text_size()
            }),
            final(self).description_size == old(self).description_size,
    {
        self.common.propagate(parent);
    }
}

impl Default for EntrySettings {
    /// Descriptions are drawn at four fifths of the default text
    /// size, rounded.
    fn default() -> (r: Self)
        ensures
            r.common.spec_text_size() is None,
            r.description_size == 16,
    {
        EntrySettings { common: crate::ui::InheritedSettings::new(None), description_size: 16 }
    }
}

/// One field value inside an entry's configuration table, as far as
/// entries can read it: a string, a boolean, a list of strings, or
/// something of any other shape (which no entry field accepts).
#[derive(Debug, Clone, PartialEq)]
pub enum FieldValue {
    Str(String),
    Bool(bool),
    StrList(Vec<String>),
    Other,
}

/// Abstract value of [`FieldValue`].
pub enum FieldData {
    Str(Seq<char>),
    Bool(bool),
    StrList(Seq<Seq<char>>),
    Other,
}

impl View for FieldValue {
    type V = FieldData;

    open spec fn view(&self) -> FieldData {
        match self {
            FieldValue::Str(s) => FieldData::Str(s@),
            FieldValue::Bool(b) => FieldData::Bool(*b),
            FieldValue::StrList(v) => FieldData::StrList(v.deep_view()),
            FieldValue::Other => FieldData::Other,
        }
    }
}

/// A value at the top level of the configuration: entries must be
/// tables of fields, and any other shape is rejected as a bare key.
#[derive(Debug, Clone, PartialEq)]
pub enum ConfigValue {
    Table(Vec<(String, FieldValue)>),
    Other,
}

/// Abstract value of [`ConfigValue`].
pub enum ConfigData {
    Table(Seq<(Seq<char>, FieldData)>),
    Other,
}

/// The abstract value of a field table.
pub open spec fn table_view(t: Seq<(String, FieldValue)>) -> Seq<(Seq<char>, FieldData)> {
    Seq::new(t.len(), |i: int| (t[i].0@, t[i].1@))
}

impl View for ConfigValue {
    type V = ConfigData;

    open spec fn view(&self) -> ConfigData {
        match self {
            ConfigValue::Table(t) => ConfigData::Table(table_view(t@)),
            ConfigValue::Other => ConfigData::Other,
        }
    }
}

/// The first value under `key`, if any.
pub open spec fn table_lookup(t: Seq<(Seq<char>, FieldData)>, key: Seq<char>) -> Option<FieldData>
    decreases t.len(),
{
    if t.len() == 0 {
        Option::None
    } else if t[0].0 == key {
        Option::Some(t[0].1)
    } else {
        table_lookup(t.drop_first(), key)
    }
}

/// An optional string field: absent, present as a string, or
/// rejected for any other shape.
pub open spec fn str_field(t: Seq<(Seq<char>, FieldData)>, key: Seq<char>) -> Result<
    Option<Seq<char>>,
    (),
> {
    match table_lookup(t, key) {
        Option::None => Result::Ok(Option::None),
        Option::Some(FieldData::Str(s)) => Result::Ok(Option::Some(s)),
        Option::Some(_) => Result::Err(()),
    }
}

/// An optional boolean field.
pub open spec fn bool_field(t: Seq<(Seq<char>, FieldData)>, key: Seq<char>) -> Result<
    Option<bool>,
    (),
> {
    match table_lookup(t, key) {
        Option::None => Result::Ok(Option::None),
        Option::Some(FieldData::Bool(b)) => Result::Ok(Option::Some(b)),
        Option::Some(_) => Result::Err(()),
    }
}

/// An optional list-of-strings field.
pub open spec fn list_field(t: Seq<(Seq<char>, FieldData)>, key: Seq<char>) -> Result<
    Option<Seq<Seq<char>>>,
    (),
> {
    match table_lookup(t, key) {
        Option::None => Result::Ok(Option::None),
        Option::Some(FieldData::StrList(v)) => Result::Ok(Option::Some(v)),
        Option::Some(_) => Result::Err(()),
    }
}

/// The description, under its long or short field name: giving both
/// is rejected as a duplicate.
pub open spec fn desc_field(t: Seq<(Seq<char>, FieldData)>) -> Result<Option<Seq<char>>, ()> {
    match (table_lookup(t, "description"@), table_lookup(t, "desc"@)) {
        (Option::Some(_), Option::Some(_)) => Result::Err(()),
        (Option::Some(FieldData::Str(s)), Option::None) => Result::Ok(Option::Some(s)),
        (Option::None, Option::Some(FieldData::Str(s))) => Result::Ok(Option::Some(s)),
        (Option::None, Option::None) => Result::Ok(Option::None),
        _ => Result::Err(()),
    }
}

/// Why a configuration value was rejected as an entry.
pub enum ParseFailure {
    /// Not a table.
    BareKey,
    /// Some field had the wrong type, or a field was given twice.
    BadField,
    /// More than one of location, url and system.
    Conflict,
}

/// The value of an optional field that parsed.
pub open spec fn got<T>(r: Result<Option<T>, ()>) -> Option<T> {
    match r {
        Result::Ok(v) => v,
        Result::Err(_) => Option::None,
    }
}

/// The string of an optional field, with a default.
pub open spec fn some_or(o: Option<Seq<char>>, d: Seq<char>) -> Seq<char> {
    match o {
        Option::Some(s) => s,
        Option::None => d,
    }
}

/// How one named configuration table becomes an entry.
///
/// A non-table is a bare key.  Fields of the wrong shape (or a
/// doubled description) fail the parse.  At most one of location,
/// url and system may be present; with none of them, the entry's
/// name is its file target.  A keyword is escaped when the target
/// was given as a url or an explicit escape flag is set.  The icon
/// key is the explicit override when given; otherwise a system
/// entry's command path, and a file entry's target with `%s` blanked
/// out -- cached per URL scheme when that target parses as a URL.
pub open spec fn parse_entry(name: Seq<char>, v: ConfigData) -> Result<EntryData, ParseFailure> {
    match v {
        ConfigData::Other => Result::Err(ParseFailure::BareKey),
        ConfigData::Table(t) => {
            if str_field(t, "location"@) is Err || str_field(t, "url"@) is Err || str_field(
                t,
                "system"@,
            ) is Err || str_field(t, "keyword"@) is Err || bool_field(t, "escape"@) is Err
                || desc_field(t) is Err || list_field(t, "tags"@) is Err || str_field(
                t,
                "icon"@,
            ) is Err {
                Result::Err(ParseFailure::BadField)
            } else {
                let location = got(str_field(t, "location"@));
                let url = got(str_field(t, "url"@));
                let system = got(str_field(t, "system"@));
                let kw = got(str_field(t, "keyword"@));
                let escape = got(bool_field(t, "escape"@));
                let desc = got(desc_field(t));
                let tags = got(list_field(t, "tags"@));
                let icon = got(str_field(t, "icon"@));
                let present = (if location is Some {
                    1int
                } else {
                    0int
                }) + (if url is Some {
                    1int
                } else {
                    0int
                }) + (if system is Some {
                    1int
                } else {
                    0int
                });
                if present >= 2 {
                    Result::Err(ParseFailure::Conflict)
                } else {
                    let loc = some_or(location, some_or(url, some_or(system, name)));
                    let is_system = system is Some;
                    let keyword = match kw {
                        Option::None => KeywordData::NoKeyword,
                        Option::Some(k) => if url is Some || escape == Option::Some(true) {
                            KeywordData::Escaped(k)
                        } else {
                            KeywordData::Raw(k)
                        },
                    };
                    let icon_type = match icon {
                        Option::Some(p) => IconKey::CustomIcon(p),
                        Option::None => if is_system {
                            IconKey::File(loc)
                        } else {
                            let parsed = subst_param(loc, Seq::empty());
                            match crate::icon::url_scheme_of(parsed) {
                                Option::Some(sch) => IconKey::Url(sch),
                                Option::None => IconKey::File(parsed),
                            }
                        },
                    };
                    Result::Ok(
                        EntryData {
                            name: name,
                            description: desc,
                            entry: if is_system {
                                EntryTypeData::System(loc)
                            } else {
                                EntryTypeData::File(loc)
                            },
                            tags: match tags {
                                Option::Some(ts) => ts,
                                Option::None => Seq::empty(),
                            },
                            keyword: keyword,
                            icon_type: icon_type,
                            icon: Option::None,
                        },
                    )
                }
            }
        },
    }
}

proof fn lemma_table_lookup_skip(t: Seq<(Seq<char>, FieldData)>, key: Seq<char>, j: int)
    requires
        0 <= j <= t.len(),
        forall|i: int| 0 <= i < j ==> t[i].0 != key,
    ensures
        table_lookup(t, key) == table_lookup(t.skip(j), key),
    decreases j,
{
    if j == 0 {
        assert(t.skip(0) =~= t);
    } else {
        assert(t.drop_first().skip(j - 1) =~= t.skip(j));
        lemma_table_lookup_skip(t.drop_first(), key, j - 1);
    }
}

proof fn lemma_table_lookup_found(t: Seq<(Seq<char>, FieldData)>, key: Seq<char>, j: int)
    requires
        0 <= j < t.len(),
        forall|i: int| 0 <= i < j ==> t[i].0 != key,
        t[j].0 == key,
    ensures
        table_lookup(t, key) == Option::Some(t[j].1),
    decreases j,
{
    if j > 0 {
        lemma_table_lookup_found(t.drop_first(), key, j - 1);
    }
}

/// The first field under `key`, if the table has one.
fn table_get<'a>(t: &'a Vec<(String, FieldValue)>, key: &str) -> (r: Option<&'a FieldValue>)
    ensures
        match r {
            Some(v) => table_lookup(table_view(t@), key@) == Option::Some(v@),
            None => table_lookup(table_view(t@), key@) is None,
        },
{
    let n = t.len();
    let mut i: usize = 0;
    while i < n
        invariant
            n == t@.len(),
            0 <= i <= n,
            forall|j: int| 0 <= j < i ==> table_view(t@)[j].0 != key@,
        decreases n - i,
    {
        proof {
            assert(table_view(t@)[i as int] == (t@[i as int].0@, t@[i as int].1@));
        }
        if strutil::str_eq(t[i].0.as_str(), key) {
            proof {
                lemma_table_lookup_found(table_view(t@), key@, i as int);
            }
            return Some(&t[i].1);
        }
        i += 1;
    }
    proof {
        lemma_table_lookup_skip(table_view(t@), key@, n as int);
        assert(table_view(t@).skip(n as int) =~= Seq::<(Seq<char>, FieldData)>::empty());
    }
    None
}

/// A copy of a string list, element for element.
fn copy_strings(v: &Vec<String>) -> (r: Vec<String>)
    ensures
        r.deep_view() == v.deep_view(),
{
    let mut r: Vec<String> = Vec::new();
    let mut i: usize = 0;
    while i < v.len()
        invariant
            0 <= i <= v@.len(),
            r@.len() == i,
            forall|k: int| 0 <= k < i ==> r@[k]@ == v@[k]@,
        decreases v@.len() - i,
    {
        let ghost pre = r@;
        r.push(v[i].clone());
        proof {
            assert(forall|k: int| 0 <= k < i ==> r@[k] == pre[k]);
        }
        i += 1;
    }
    proof {
        assert forall|k: int| 0 <= k < r@.len() implies r.deep_view()[k] == v.deep_view()[k] by {
            assert(r.deep_view()[k] == r@[k]@);
            assert(v.deep_view()[k] == v@[k]@);
        }
        assert(r.deep_view() =~= v.deep_view());
    }
    r
}

fn get_str(t: &Vec<(String, FieldValue)>, key: &str) -> (r: Result<Option<String>, ()>)
    ensures
        match r {
            Ok(Some(s)) => str_field(table_view(t@), key@) == Result::Ok::<Option<Seq<char>>, ()>(
                Option::Some(s@),
            ) && table_lookup(table_view(t@), key@) is Some,
            Ok(None) => str_field(table_view(t@), key@) == Result::Ok::<Option<Seq<char>>, ()>(Option::None)
                && table_lookup(table_view(t@), key@) is None,
            Err(_) => str_field(table_view(t@), key@) is Err,
        },
{
    match table_get(t, key) {
        Some(v) => match v {
            FieldValue::Str(s) => Ok(Some(s.clone())),
            _ => Err(()),
        },
        None => Ok(None),
    }
}

fn get_bool(t: &Vec<(String, FieldValue)>, key: &str) -> (r: Result<Option<bool>, ()>)
    ensures
        match r {
            Ok(v) => bool_field(table_view(t@), key@) == Result::Ok::<Option<bool>, ()>(v),
            Err(_) => bool_field(table_view(t@), key@) is Err,
        },
{
    match table_get(t, key) {
        Some(v) => match v {
            FieldValue::Bool(b) => Ok(Some(*b)),
            _ => Err(()),
        },
        None => Ok(None),
    }
}

fn get_list(t: &Vec<(String, FieldValue)>, key: &str) -> (r: Result<Option<Vec<String>>, ()>)
    ensures
        match r {
            Ok(Some(v)) => list_field(table_view(t@), key@) == Result::Ok::<
                Option<Seq<Seq<char>>>,
                (),
            >(Option::Some(v.deep_view())),
            Ok(None) => list_field(table_view(t@), key@) == Result::Ok::<Option<Seq<Seq<char>>>, ()>(
                Option::None,
            ),
            Err(_) => list_field(table_view(t@), key@) is Err,
        },
{
    match table_get(t, key) {
        Some(v) => match v {
            FieldValue::StrList(items) => Ok(Some(copy_strings(items))),
            _ => Err(()),
        },
        None => Ok(None),
    }
}

fn get_desc(t: &Vec<(String, FieldValue)>) -> (r: Result<Option<String>, ()>)
    ensures
        match r {
            Ok(Some(s)) => desc_field(table_view(t@)) == Result::Ok::<Option<Seq<char>>, ()>(
                Option::Some(s@),
            ),
            Ok(None) => desc_field(table_view(t@)) == Result::Ok::<Option<Seq<char>>, ()>(Option::None),
            Err(_) => desc_field(table_view(t@)) is Err,
        },
{
    let long = table_get(t, "description");
    let short = table_get(t, "desc");
    match (long, short) {
        (Some(_), Some(_)) => Err(()),
        (Some(v), None) => match v {
            FieldValue::Str(s) => Ok(Some(s.clone())),
            _ => Err(()),
        },
        (None, Some(v)) => match v {
            FieldValue::Str(s) => Ok(Some(s.clone())),
            _ => Err(()),
        },
        (None, None) => Ok(None),
    }
}

impl StoreEntry {
    /// Parses the configuration value stored under `name` into an
    /// entry, exactly as [`parse_entry`] describes, mapping each
    /// parse failure to its error.
    pub fn from_value(name: String, val: ConfigValue) -> (r: Result<StoreEntry, Error>)
        ensures
            ({
                let p = parse_entry(name@, val@);
                match r {
                    Ok(e) => p == Result::Ok::<EntryData, ParseFailure>(e@),
                    Err(Error::BareKeyError(s)) => p == Result::Err::<EntryData, ParseFailure>(
                        ParseFailure::BareKey,
                    ) && s@ == name@,
                    Err(Error::ParseError(_)) => p == Result::Err::<EntryData, ParseFailure>(
                        ParseFailure::BadField,
                    ),
                    Err(Error::ConflictError(s)) => p == Result::Err::<EntryData, ParseFailure>(
                        ParseFailure::Conflict,
                    ) && s@ == name@,
                }
            }),
    {
        let t = match val {
            ConfigValue::Table(t) => t,
            ConfigValue::Other => {
                return Err(Error::BareKeyError(name));
            },
        };
        let location = match get_str(&t, "location") {
            Ok(v) => v,
            Err(_) => {
                return Err(Error::ParseError(String::from_str("the location field must be a string")));
            },
        };
        let url = match get_str(&t, "url") {
            Ok(v) => v,
            Err(_) => {
                return Err(Error::ParseError(String::from_str("the url field must be a string")));
            },
        };
        let system = match get_str(&t, "system") {
            Ok(v) => v,
            Err(_) => {
                return Err(Error::ParseError(String::from_str("the system field must be a string")));
            },
        };
        let kw = match get_str(&t, "keyword") {
            Ok(v) => v,
            Err(_) => {
                return Err(Error::ParseError(String::from_str("the keyword field must be a string")));
            },
        };
        let escape = match get_bool(&t, "escape") {
            Ok(v) => v,
            Err(_) => {
                return Err(Error::ParseError(String::from_str("the escape field must be a boolean")));
            },
        };
        let desc = match get_desc(&t) {
            Ok(v) => v,
            Err(_) => {
                return Err(
                    Error::ParseError(
                        String::from_str("the description field must be a single string"),
                    ),
                );
            },
        };
        let tags = match get_list(&t, "tags") {
            Ok(v) => v,
            Err(_) => {
                return Err(
                    Error::ParseError(String::from_str("the tags field must be a list of strings")),
                );
            },
        };
        let iconf = match get_str(&t, "icon") {
            Ok(v) => v,
            Err(_) => {
                return Err(Error::ParseError(String::from_str("the icon field must be a string")));
            },
        };

        let mut present: u32 = 0;
        if location.is_some() {
            present += 1;
        }
        if url.is_some() {
            present += 1;
        }
        if system.is_some() {
            present += 1;
        }
        if present >= 2 {
            return Err(Error::ConflictError(name));
        }

        let url_present = url.is_some();
        let is_system = system.is_some();
        let loc: String = match location {
            Some(l) => l,
            None => match url {
                Some(u) => u,
                None => match system {
                    Some(s) => s,
                    None => name.clone(),
                },
            },
        };
        let esc = match escape {
            Some(b) => b,
            None => false,
        };
        let keyword = match kw {
            Some(k) => if url_present || esc {
                Keyword::EscapedKeyword(k)
            } else {
                Keyword::RawKeyword(k)
            },
            None => Keyword::NoKeyword,
        };
        let tags = match tags {
            Some(ts) => ts,
            None => Vec::new(),
        };
        let icon_type = match iconf {
            Some(p) => IconType::custom(p),
            None => if is_system {
                IconType::file(loc.clone())
            } else {
                let parsed = strutil::format_param(loc.as_str(), "");
                proof {
                    reveal_strlit("");
                    assert(""@ =~= Seq::<char>::empty());
                }
                match crate::icon::parse_url_scheme(parsed.as_str()) {
                    Some(sch) => IconType::Url(sch),
                    None => IconType::file(parsed),
                }
            },
        };
        let entry = if is_system {
            EntryType::SystemEntry(loc)
        } else {
            EntryType::FileEntry(loc)
        };
        let result = StoreEntry {
            name,
            description: desc,
            entry,
            tags,
            keyword,
            icon_type,
            icon: None,
        };
        proof {
            let p = parse_entry(result.name@, val@);
            assert(p matches Result::Ok(d) && d =~= result@);
        }
        Ok(result)
    }
}

} // verus!
