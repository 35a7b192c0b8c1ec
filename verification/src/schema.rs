//! Field lists: how the daemon describes a settings surface a client renders
//! without knowing what is behind it.
//!
//! A source's sign-in form, an integration's credentials and the downloader's
//! options are all the same shape: a list of [`FieldSpec`] going out, a list
//! of [`FieldValue`] coming back.

use vstd::prelude::*;
use crate::text::{bool_text, bool_to_string, owned, push_deep, str_eq};

verus! {

// ---------------------------------------------------------------- the types

/// Text a client shows. A `Key` is looked up in its own translations; a
/// `Literal` is a name that is the same everywhere, like a brand.
#[derive(Debug, Clone, PartialEq, Eq)]
pub enum Text {
    Key(String),
    Literal(String),
}

/// A glyph: an icon-font class, or an SVG path for a logo no font has.
#[derive(Debug, Clone, PartialEq, Eq)]
pub enum Icon {
    Class(String),
    Svg(String),
}

#[derive(Debug, Clone, PartialEq, Eq)]
pub struct ChoiceOption {
    pub value: String,
    pub label: Text,
}

/// What control a field is edited with.
#[derive(Debug, Clone, PartialEq, Eq)]
pub enum FieldKind {
    Text,
    /// Never sent back out with a value; an empty one on the way in means
    /// "leave it alone".
    Secret,
    Url,
    Toggle,
    /// A single filesystem path.
    Directory,
    /// `custom` lets a value outside the list be typed in.
    Choice { options: Vec<ChoiceOption>, custom: bool },
    Radio { options: Vec<ChoiceOption> },
    /// No control: a line of explanation.
    Note,
}

/// One row of a published settings surface.
#[derive(Debug, Clone, PartialEq, Eq)]
pub struct FieldSpec {
    pub key: String,
    pub label: Text,
    /// Rendered under the control.
    pub help: Option<Text>,
    pub placeholder: Option<Text>,
    /// Starts a titled group before this row.
    pub section: Option<Text>,
    pub kind: FieldKind,
    pub required: bool,
    /// The current value, or the default for a new one.
    pub value: Option<String>,
    /// The settings key behind this row, where there is one.
    pub config_key: Option<String>,
    /// Show this row only while another field holds a given value.
    pub show_when: Option<FieldValue>,
}

/// One answer. A toggle is `"true"` or `"false"`.
#[derive(Debug, Clone, PartialEq, Eq)]
pub struct FieldValue {
    pub key: String,
    pub value: String,
}

/// Why a draft cannot be saved. `field` names the row it belongs under; a
/// problem with none is about the form as a whole.
#[derive(Debug, Clone, PartialEq, Eq)]
pub struct Problem {
    pub field: Option<String>,
    pub label: Text,
}

// ---------------------------------------------------------------- models

pub enum TextV {
    Key(Seq<char>),
    Literal(Seq<char>),
}

pub enum IconV {
    Class(Seq<char>),
    Svg(Seq<char>),
}

pub struct ChoiceOptionV {
    pub value: Seq<char>,
    pub label: TextV,
}

pub enum FieldKindV {
    Text,
    Secret,
    Url,
    Toggle,
    Directory,
    Choice { options: Seq<ChoiceOptionV>, custom: bool },
    Radio { options: Seq<ChoiceOptionV> },
    Note,
}

pub struct FieldValueV {
    pub key: Seq<char>,
    pub value: Seq<char>,
}

pub struct FieldSpecV {
    pub key: Seq<char>,
    pub label: TextV,
    pub help: Option<TextV>,
    pub placeholder: Option<TextV>,
    pub section: Option<TextV>,
    pub kind: FieldKindV,
    pub required: bool,
    pub value: Option<Seq<char>>,
    pub config_key: Option<Seq<char>>,
    pub show_when: Option<FieldValueV>,
}

pub struct ProblemV {
    pub field: Option<Seq<char>>,
    pub label: TextV,
}

impl DeepView for Text {
    type V = TextV;

    open spec fn deep_view(&self) -> TextV {
        match self {
            Text::Key(k) => TextV::Key(k@),
            Text::Literal(l) => TextV::Literal(l@),
        }
    }
}

impl DeepView for Icon {
    type V = IconV;

    open spec fn deep_view(&self) -> IconV {
        match self {
            Icon::Class(c) => IconV::Class(c@),
            Icon::Svg(p) => IconV::Svg(p@),
        }
    }
}

impl DeepView for ChoiceOption {
    type V = ChoiceOptionV;

    open spec fn deep_view(&self) -> ChoiceOptionV {
        ChoiceOptionV { value: self.value@, label: self.label.deep_view() }
    }
}

impl DeepView for FieldKind {
    type V = FieldKindV;

    open spec fn deep_view(&self) -> FieldKindV {
        match self {
            FieldKind::Text => FieldKindV::Text,
            FieldKind::Secret => FieldKindV::Secret,
            FieldKind::Url => FieldKindV::Url,
            FieldKind::Toggle => FieldKindV::Toggle,
            FieldKind::Directory => FieldKindV::Directory,
            FieldKind::Choice { options, custom } => FieldKindV::Choice {
                options: options.deep_view(),
                custom: *custom,
            },
            FieldKind::Radio { options } => FieldKindV::Radio { options: options.deep_view() },
            FieldKind::Note => FieldKindV::Note,
        }
    }
}

impl DeepView for FieldValue {
    type V = FieldValueV;

    open spec fn deep_view(&self) -> FieldValueV {
        FieldValueV { key: self.key@, value: self.value@ }
    }
}

impl DeepView for FieldSpec {
    type V = FieldSpecV;

    open spec fn deep_view(&self) -> FieldSpecV {
        FieldSpecV {
            key: self.key@,
            label: self.label.deep_view(),
            help: self.help.deep_view(),
            placeholder: self.placeholder.deep_view(),
            section: self.section.deep_view(),
            kind: self.kind.deep_view(),
            required: self.required,
            value: self.value.deep_view(),
            config_key: self.config_key.deep_view(),
            show_when: self.show_when.deep_view(),
        }
    }
}

impl DeepView for Problem {
    type V = ProblemV;

    open spec fn deep_view(&self) -> ProblemV {
        ProblemV { field: self.field.deep_view(), label: self.label.deep_view() }
    }
}

/// A row with every optional part absent.
pub open spec fn blank_spec(key: Seq<char>, label: TextV, kind: FieldKindV) -> FieldSpecV {
    FieldSpecV {
        key,
        label,
        help: None,
        placeholder: None,
        section: None,
        kind,
        required: false,
        value: None,
        config_key: None,
        show_when: None,
    }
}

// ---------------------------------------------------------------- defaults

impl Default for Text {
    fn default() -> (t: Text)
        ensures
            t.deep_view() == TextV::Literal(Seq::<char>::empty()),
    {
        Text::Literal(String::new())
    }
}

impl Default for Icon {
    fn default() -> (i: Icon)
        ensures
            i.deep_view() == IconV::Class(Seq::<char>::empty()),
    {
        Icon::Class(String::new())
    }
}

impl Default for FieldKind {
    fn default() -> (k: FieldKind)
        ensures
            k.deep_view() == FieldKindV::Text,
    {
        FieldKind::Text
    }
}

impl Default for ChoiceOption {
    fn default() -> (o: ChoiceOption)
        ensures
            o.deep_view() == (ChoiceOptionV {
                value: Seq::empty(),
                label: TextV::Literal(Seq::empty()),
            }),
    {
        ChoiceOption { value: String::new(), label: Text::Literal(String::new()) }
    }
}

impl Default for FieldValue {
    fn default() -> (v: FieldValue)
        ensures
            v.deep_view() == (FieldValueV { key: Seq::empty(), value: Seq::empty() }),
    {
        FieldValue { key: String::new(), value: String::new() }
    }
}

impl Default for Problem {
    fn default() -> (p: Problem)
        ensures
            p.deep_view() == (ProblemV { field: None, label: TextV::Literal(Seq::empty()) }),
    {
        Problem { field: None, label: Text::Literal(String::new()) }
    }
}

impl Default for FieldSpec {
    fn default() -> (f: FieldSpec)
        ensures
            f.deep_view() == blank_spec(Seq::empty(), TextV::Literal(Seq::empty()), FieldKindV::Text),
    {
        FieldSpec {
            key: String::new(),
            label: Text::Literal(String::new()),
            help: None,
            placeholder: None,
            section: None,
            kind: FieldKind::Text,
            required: false,
            value: None,
            config_key: None,
            show_when: None,
        }
    }
}

// ---------------------------------------------------------------- constructors

impl Text {
    pub fn key(key: &str) -> (t: Text)
        ensures
            t.deep_view() == TextV::Key(key@),
    {
        Text::Key(owned(key))
    }

    pub fn literal(text: &str) -> (t: Text)
        ensures
            t.deep_view() == TextV::Literal(text@),
    {
        Text::Literal(owned(text))
    }

    /// A copy with the same contents.
    pub fn duplicate(&self) -> (t: Text)
        ensures
            t.deep_view() == self.deep_view(),
    {
        match self {
            Text::Key(k) => Text::Key(k.clone()),
            Text::Literal(l) => Text::Literal(l.clone()),
        }
    }

    /// Whether two texts are the same key or the same literal.
    pub fn same_as(&self, other: &Text) -> (r: bool)
        ensures
            r == (self.deep_view() == other.deep_view()),
    {
        match (self, other) {
            (Text::Key(a), Text::Key(b)) => str_eq(a.as_str(), b.as_str()),
            (Text::Literal(a), Text::Literal(b)) => str_eq(a.as_str(), b.as_str()),
            _ => false,
        }
    }
}

impl FieldValue {
    pub fn new(key: &str, value: &str) -> (v: FieldValue)
        ensures
            v.deep_view() == (FieldValueV { key: key@, value: value@ }),
    {
        FieldValue { key: owned(key), value: owned(value) }
    }

    /// Whether a toggle's answer is on.
    pub fn is_on(&self) -> (r: bool)
        ensures
            r == (self.value@ == "true"@),
    {
        str_eq(self.value.as_str(), "true")
    }

    pub fn duplicate(&self) -> (v: FieldValue)
        ensures
            v.deep_view() == self.deep_view(),
    {
        FieldValue { key: self.key.clone(), value: self.value.clone() }
    }
}

impl Problem {
    pub fn on(field: &str, label: Text) -> (p: Problem)
        ensures
            p.deep_view() == (ProblemV { field: Some(field@), label: label.deep_view() }),
    {
        Problem { field: Some(owned(field)), label }
    }
}

impl ChoiceOption {
    pub fn duplicate(&self) -> (o: ChoiceOption)
        ensures
            o.deep_view() == self.deep_view(),
    {
        ChoiceOption { value: self.value.clone(), label: self.label.duplicate() }
    }
}

/// A copy of an option list.
pub fn duplicate_options(options: &Vec<ChoiceOption>) -> (r: Vec<ChoiceOption>)
    ensures
        r.deep_view() == options.deep_view(),
{
    let mut r: Vec<ChoiceOption> = Vec::new();
    let mut i: usize = 0;
    while i < options.len()
        invariant
            i <= options.len(),
            r.deep_view() == options.deep_view().take(i as int),
        decreases options.len() - i,
    {
        push_deep(&mut r, options[i].duplicate());
        assert(r.deep_view() =~= options.deep_view().take(i + 1));
        i += 1;
    }
    assert(options.deep_view().take(options.len() as int) =~= options.deep_view());
    r
}

fn duplicate_opt_text(t: &Option<Text>) -> (r: Option<Text>)
    ensures
        r.deep_view() == t.deep_view(),
{
    match t {
        Some(t) => Some(t.duplicate()),
        None => None,
    }
}

fn duplicate_opt_string(s: &Option<String>) -> (r: Option<String>)
    ensures
        r.deep_view() == s.deep_view(),
{
    match s {
        Some(s) => Some(s.clone()),
        None => None,
    }
}

impl FieldKind {
    pub fn duplicate(&self) -> (k: FieldKind)
        ensures
            k.deep_view() == self.deep_view(),
    {
        match self {
            FieldKind::Text => FieldKind::Text,
            FieldKind::Secret => FieldKind::Secret,
            FieldKind::Url => FieldKind::Url,
            FieldKind::Toggle => FieldKind::Toggle,
            FieldKind::Directory => FieldKind::Directory,
            FieldKind::Choice { options, custom } => FieldKind::Choice {
                options: duplicate_options(options),
                custom: *custom,
            },
            FieldKind::Radio { options } => FieldKind::Radio { options: duplicate_options(options) },
            FieldKind::Note => FieldKind::Note,
        }
    }
}

impl FieldSpec {
    /// A row with only a key, a label and a control.
    pub fn blank(key: &str, label: Text, kind: FieldKind) -> (f: FieldSpec)
        ensures
            f.deep_view() == blank_spec(key@, label.deep_view(), kind.deep_view()),
    {
        FieldSpec {
            key: owned(key),
            label,
            help: None,
            placeholder: None,
            section: None,
            kind,
            required: false,
            value: None,
            config_key: None,
            show_when: None,
        }
    }

    pub fn duplicate(&self) -> (f: FieldSpec)
        ensures
            f.deep_view() == self.deep_view(),
    {
        FieldSpec {
            key: self.key.clone(),
            label: self.label.duplicate(),
            help: duplicate_opt_text(&self.help),
            placeholder: duplicate_opt_text(&self.placeholder),
            section: duplicate_opt_text(&self.section),
            kind: self.kind.duplicate(),
            required: self.required,
            value: duplicate_opt_string(&self.value),
            config_key: duplicate_opt_string(&self.config_key),
            show_when: match &self.show_when {
                Some(v) => Some(v.duplicate()),
                None => None,
            },
        }
    }
}

// ---------------------------------------------------------------- lookups

/// The published value of the first row with this key; `None` when no row
/// has the key or that row holds no value.
pub open spec fn spec_value_of(fields: Seq<FieldSpecV>, key: Seq<char>) -> Option<Seq<char>>
    decreases fields.len(),
{
    if fields.len() == 0 {
        None
    } else if fields[0].key == key {
        fields[0].value
    } else {
        spec_value_of(fields.drop_first(), key)
    }
}

/// The answer of the first entry with this key, if any.
pub open spec fn answer_of(values: Seq<FieldValueV>, key: Seq<char>) -> Option<Seq<char>>
    decreases values.len(),
{
    if values.len() == 0 {
        None
    } else if values[0].key == key {
        Some(values[0].value)
    } else {
        answer_of(values.drop_first(), key)
    }
}

/// A toggle's answer, or `current` where it was not answered.
pub open spec fn toggle_answer(values: Seq<FieldValueV>, key: Seq<char>, current: bool) -> bool {
    match answer_of(values, key) {
        Some(v) => v == "true"@,
        None => current,
    }
}

/// Read the current value of one row of a published list.
pub fn spec_value<'a>(fields: &'a [FieldSpec], key: &str) -> (r: Option<&'a str>)
    ensures
        r.deep_view() == spec_value_of(fields.deep_view(), key@),
{
    let mut i: usize = 0;
    assert(fields.deep_view().skip(0) =~= fields.deep_view());
    while i < fields.len()
        invariant
            i <= fields.len(),
            spec_value_of(fields.deep_view(), key@) == spec_value_of(
                fields.deep_view().skip(i as int),
                key@,
            ),
        decreases fields.len() - i,
    {
        assert(fields.deep_view().skip(i as int)[0] == fields[i as int].deep_view());
        if str_eq(fields[i].key.as_str(), key) {
            return match &fields[i].value {
                Some(v) => Some(v.as_str()),
                None => None,
            };
        }
        assert(fields.deep_view().skip(i as int).drop_first() =~= fields.deep_view().skip(i + 1));
        i += 1;
    }
    None
}

/// Read one value out of an answer list.
pub fn value_of<'a>(values: &'a [FieldValue], key: &str) -> (r: Option<&'a str>)
    ensures
        r.deep_view() == answer_of(values.deep_view(), key@),
{
    let mut i: usize = 0;
    assert(values.deep_view().skip(0) =~= values.deep_view());
    while i < values.len()
        invariant
            i <= values.len(),
            answer_of(values.deep_view(), key@) == answer_of(
                values.deep_view().skip(i as int),
                key@,
            ),
        decreases values.len() - i,
    {
        assert(values.deep_view().skip(i as int)[0] == values[i as int].deep_view());
        if str_eq(values[i].key.as_str(), key) {
            return Some(values[i].value.as_str());
        }
        assert(values.deep_view().skip(i as int).drop_first() =~= values.deep_view().skip(i + 1));
        i += 1;
    }
    None
}

/// Read a toggle, falling back to what the daemon already had.
pub fn toggle_of(values: &[FieldValue], key: &str, current: bool) -> (r: bool)
    ensures
        r == toggle_answer(values.deep_view(), key@, current),
{
    match value_of(values, key) {
        Some(v) => str_eq(v, "true"),
        None => current,
    }
}

// ---------------------------------------------------------------- rendering

/// The value a field currently holds: what the caller has typed, falling
/// back to what the daemon published, else empty.
pub open spec fn current_value(values: Seq<FieldValueV>, field: FieldSpecV) -> Seq<char> {
    match answer_of(values, field.key) {
        Some(v) => v,
        None => match field.value {
            Some(v) => v,
            None => Seq::empty(),
        },
    }
}

/// The first row with this key, if any.
pub open spec fn row_named(fields: Seq<FieldSpecV>, key: Seq<char>) -> Option<FieldSpecV>
    decreases fields.len(),
{
    if fields.len() == 0 {
        None
    } else if fields[0].key == key {
        Some(fields[0])
    } else {
        row_named(fields.drop_first(), key)
    }
}

/// Whether a row is shown, given what the other fields hold: a row with no
/// condition always is; one with a condition is while the field it names
/// holds the value it names (a missing field holds the empty value).
pub open spec fn row_applies(
    values: Seq<FieldValueV>,
    fields: Seq<FieldSpecV>,
    field: FieldSpecV,
) -> bool {
    match field.show_when {
        None => true,
        Some(condition) => {
            let held = match row_named(fields, condition.key) {
                Some(holder) => current_value(values, holder),
                None => Seq::empty(),
            };
            held == condition.value
        },
    }
}

/// The value a field currently holds.
pub fn current(values: &[FieldValue], field: &FieldSpec) -> (r: String)
    ensures
        r@ == current_value(values.deep_view(), field.deep_view()),
{
    match value_of(values, field.key.as_str()) {
        Some(v) => owned(v),
        None => match &field.value {
            Some(v) => v.clone(),
            None => String::new(),
        },
    }
}

fn find_row<'a>(fields: &'a [FieldSpec], key: &str) -> (r: Option<&'a FieldSpec>)
    ensures
        r.deep_view() == row_named(fields.deep_view(), key@),
{
    let mut i: usize = 0;
    assert(fields.deep_view().skip(0) =~= fields.deep_view());
    while i < fields.len()
        invariant
            i <= fields.len(),
            row_named(fields.deep_view(), key@) == row_named(
                fields.deep_view().skip(i as int),
                key@,
            ),
        decreases fields.len() - i,
    {
        assert(fields.deep_view().skip(i as int)[0] == fields[i as int].deep_view());
        if str_eq(fields[i].key.as_str(), key) {
            return Some(&fields[i]);
        }
        assert(fields.deep_view().skip(i as int).drop_first() =~= fields.deep_view().skip(i + 1));
        i += 1;
    }
    None
}

/// Whether a row applies, given what the other fields hold.
pub fn applies(values: &[FieldValue], fields: &[FieldSpec], field: &FieldSpec) -> (r: bool)
    ensures
        r == row_applies(values.deep_view(), fields.deep_view(), field.deep_view()),
{
    match &field.show_when {
        None => true,
        Some(condition) => {
            let held = match find_row(fields, condition.key.as_str()) {
                Some(holder) => current(values, holder),
                None => String::new(),
            };
            str_eq(held.as_str(), condition.value.as_str())
        },
    }
}

/// The sentinel a choice takes when the answer is typed rather than picked.
pub const CUSTOM: &'static str = "__custom";

/// What a choice's picker sends for the entry picked: the custom entry opens
/// a typed answer, which starts empty.
pub open spec fn picked_value(picked: Seq<char>) -> Seq<char> {
    if picked == CUSTOM@ {
        Seq::empty()
    } else {
        picked
    }
}

/// The answer a choice's picker sends under `key`.
pub fn picked_answer(key: &str, picked: &str) -> (r: FieldValue)
    ensures
        r.deep_view() == (FieldValueV { key: key@, value: picked_value(picked@) }),
{
    if str_eq(picked, CUSTOM) {
        FieldValue { key: owned(key), value: String::new() }
    } else {
        FieldValue::new(key, picked)
    }
}

/// The answer a toggle sends under `key`: `"true"` or `"false"`.
pub fn toggled_answer(key: &str, on: bool) -> (r: FieldValue)
    ensures
        r.deep_view() == (FieldValueV { key: key@, value: bool_text(on) }),
{
    FieldValue { key: owned(key), value: bool_to_string(on) }
}

/// The entries a choice lists.
pub open spec fn option_entries(field: FieldSpecV) -> Seq<(Seq<char>, TextV)> {
    match field.kind {
        FieldKindV::Choice { options, custom } => {
            let listed = options.map_values(|o: ChoiceOptionV| (o.value, o.label));
            if custom {
                listed.push((CUSTOM@, TextV::Key("custom_manual"@)))
            } else {
                listed
            }
        },
        _ => Seq::empty(),
    }
}

/// Whether a choice's answer was typed: the field allows typing and the
/// answer is none of its options.
pub open spec fn option_typed(field: FieldSpecV, chosen: Seq<char>) -> bool {
    match field.kind {
        FieldKindV::Choice { options, custom } => custom && !(exists|i: int|
            0 <= i < options.len() && #[trigger] options[i].value == chosen),
        _ => false,
    }
}

/// The option list for a choice, plus a "custom" entry when the daemon
/// allows a value outside it, and whether `chosen` is such a typed value.
pub fn options(field: &FieldSpec, chosen: &str) -> (r: (Vec<(String, Text)>, bool))
    ensures
        r.0.deep_view() == option_entries(field.deep_view()),
        r.1 == option_typed(field.deep_view(), chosen@),
{
    match &field.kind {
        FieldKind::Choice { options, custom } => {
            let mut listed: Vec<(String, Text)> = Vec::new();
            let mut known = false;
            let mut i: usize = 0;
            while i < options.len()
                invariant
                    i <= options.len(),
                    listed.deep_view() == options.deep_view().take(i as int).map_values(
                        |o: ChoiceOptionV| (o.value, o.label),
                    ),
                    known == (exists|j: int|
                        0 <= j < i && #[trigger] options.deep_view()[j].value == chosen@),
                decreases options.len() - i,
            {
                let o = &options[i];
                assert(options.deep_view()[i as int] == o.deep_view());
                push_deep(&mut listed, (o.value.clone(), o.label.duplicate()));
                if str_eq(o.value.as_str(), chosen) {
                    known = true;
                    assert(options.deep_view()[i as int].value == chosen@);
                } else if !known {
                    assert(options.deep_view()[i as int].value != chosen@);
                    assert forall|j: int| 0 <= j < i + 1 implies #[trigger] options.deep_view()[j].value != chosen@ by {
                        if j < i {
                            assert(!(0 <= j < i && options.deep_view()[j].value == chosen@));
                        }
                    }
                }
                assert(listed.deep_view() =~= options.deep_view().take(i + 1).map_values(
                    |o: ChoiceOptionV| (o.value, o.label),
                ));
                i += 1;
            }
            assert(options.deep_view().take(options.len() as int) =~= options.deep_view());
            if *custom {
                listed.push((owned(CUSTOM), Text::key("custom_manual")));
            }
            (listed, *custom && !known)
        },
        _ => (Vec::new(), false),
    }
}

/// The shown rows, each with the heading drawn above it: a row's section
/// heading is drawn only where it differs from the last heading drawn.
pub open spec fn section_rows(shown: Seq<FieldSpecV>, last: Option<TextV>) -> Seq<
    (FieldSpecV, Option<TextV>),
>
    decreases shown.len(),
{
    if shown.len() == 0 {
        Seq::empty()
    } else {
        let field = shown[0];
        let heading = match field.section {
            Some(title) => if last == Some(title) {
                None
            } else {
                Some(title)
            },
            None => None,
        };
        let next = if heading is Some {
            heading
        } else {
            last
        };
        seq![(field, heading)] + section_rows(shown.drop_first(), next)
    }
}

/// The rows of a list that apply, in order.
pub open spec fn shown_rows(values: Seq<FieldValueV>, fields: Seq<FieldSpecV>) -> Seq<FieldSpecV> {
    fields.filter(|f: FieldSpecV| row_applies(values, fields, f))
}

/// The rows a form draws, with the group headings above them. A heading
/// belongs to the first row of its group, so a hidden row never eats it.
pub fn rows(fields: &[FieldSpec], values: &[FieldValue]) -> (r: Vec<(FieldSpec, Option<Text>)>)
    ensures
        r.deep_view() == section_rows(shown_rows(values.deep_view(), fields.deep_view()), None),
{
    let ghost all = fields.deep_view();
    let ghost vals = values.deep_view();
    let ghost pred = |f: FieldSpecV| row_applies(vals, all, f);
    let mut shown: Vec<FieldSpec> = Vec::new();
    let mut i: usize = 0;
    while i < fields.len()
        invariant
            i <= fields.len(),
            all == fields.deep_view(),
            vals == values.deep_view(),
            pred == (|f: FieldSpecV| row_applies(vals, all, f)),
            shown.deep_view() == all.take(i as int).filter(pred),
        decreases fields.len() - i,
    {
        reveal_with_fuel(Seq::<_>::filter, 1);
        let keep = applies(values, fields, &fields[i]);
        if keep {
            push_deep(&mut shown, fields[i].duplicate());
        }
        assert(all.take(i + 1).drop_last() =~= all.take(i as int));
        assert(shown.deep_view() =~= all.take(i + 1).filter(pred));
        i += 1;
    }
    assert(all.take(fields.len() as int) =~= all);
    let mut out: Vec<(FieldSpec, Option<Text>)> = Vec::new();
    let mut last: Option<Text> = None;
    let mut j: usize = 0;
    assert(shown.deep_view().skip(0) =~= shown.deep_view());
    assert(out.deep_view() =~= Seq::empty());
    while j < shown.len()
        invariant
            j <= shown.len(),
            out.deep_view() + section_rows(shown.deep_view().skip(j as int), last.deep_view())
                == section_rows(shown.deep_view(), None),
        decreases shown.len() - j,
    {
        let field = &shown[j];
        let ghost rest = shown.deep_view().skip(j as int);
        assert(rest[0] == field.deep_view());
        assert(rest.drop_first() =~= shown.deep_view().skip(j + 1));
        let heading: Option<Text> = match &field.section {
            Some(title) => {
                let repeated = match &last {
                    Some(prev) => prev.same_as(title),
                    None => false,
                };
                if repeated {
                    None
                } else {
                    Some(title.duplicate())
                }
            },
            None => None,
        };
        let next: Option<Text> = match &heading {
            Some(h) => Some(h.duplicate()),
            None => last,
        };
        push_deep(&mut out, (field.duplicate(), heading));
        assert(out.deep_view() + section_rows(shown.deep_view().skip(j + 1), next.deep_view())
            =~= (out.deep_view().drop_last() + section_rows(rest, last.deep_view())));
        last = next;
        j += 1;
    }
    assert(out.deep_view() =~= out.deep_view() + section_rows(
        shown.deep_view().skip(shown.len() as int),
        last.deep_view(),
    ));
    out
}

} // verus!
