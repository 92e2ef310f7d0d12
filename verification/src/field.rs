//! The attributes of one field: what they may say, and what is made of them.

use vstd::prelude::*;
use proc_macro2::{Ident, Span};
use syn::meta::ParseNestedMeta;
use syn::{Attribute, Path};
use crate::error::{
    compile_error_tokens, error_message, error_tokens, new_error, DtoError, Violation,
};
use crate::syntax::{
    attr_is, attr_named, meta_key, meta_key_span, meta_path_value, meta_str_value, nested_key,
    nested_key_span, try_ident, StrValue,
};
use crate::text::{
    ascii_text, blank, ident_text, is_ascii_text, is_blank, is_ident_text, same_text,
};
use crate::tokens::{ident_name, ident_span, new_ident};

verus! {

/// What the `dto` attributes of one field ask for.
pub struct FieldAttrs {
    /// The source field to read, where it is not named like the target.
    pub rename: Option<Ident>,
    /// Where the `rename` string stands.
    pub rename_span: Option<Span>,
    /// The function to pass the source field through.
    pub transform_fn: Option<Path>,
    /// Whether the field is left to its default.
    pub skip: bool,
    /// Whether the source field is converted with `Into`.
    pub into_flag: bool,
}

/// How one field gets its value.
pub enum FieldAction<'a> {
    /// From `Default::default()`.
    Skip,
    /// From a function applied to the source field.
    Transform(&'a Path),
    /// From the source field through `Into::into`.
    Into,
    /// From the source field as it is.
    Direct,
}

/// How one field gets its value, as a mathematical value.
pub ghost enum Action {
    Skip,
    Transform(Path),
    Into,
    Direct,
}

impl<'a> View for FieldAction<'a> {
    type V = Action;

    open spec fn view(&self) -> Action {
        match *self {
            FieldAction::Skip => Action::Skip,
            FieldAction::Transform(f) => Action::Transform(*f),
            FieldAction::Into => Action::Into,
            FieldAction::Direct => Action::Direct,
        }
    }
}

/// The keys that a field's `dto` attribute knows.
#[derive(Clone, Copy, Debug, PartialEq, Eq)]
pub enum FieldKey {
    Rename,
    TransformFn,
    Skip,
    Into,
    Unknown,
}

/// The key that a word stands for.
pub open spec fn field_key(word: Seq<char>) -> FieldKey {
    if word == "rename"@ {
        FieldKey::Rename
    } else if word == "transform_fn"@ {
        FieldKey::TransformFn
    } else if word == "skip"@ {
        FieldKey::Skip
    } else if word == "into"@ {
        FieldKey::Into
    } else {
        FieldKey::Unknown
    }
}

/// Each of the four words stands for its own key.
pub proof fn field_keys_are_told_apart()
    ensures
        field_key("rename"@) == FieldKey::Rename,
        field_key("transform_fn"@) == FieldKey::TransformFn,
        field_key("skip"@) == FieldKey::Skip,
        field_key("into"@) == FieldKey::Into,
{
    reveal_strlit("rename");
    reveal_strlit("transform_fn");
    reveal_strlit("skip");
    reveal_strlit("into");
    assert("rename"@.len() == 6);
    assert("transform_fn"@.len() == 12);
    assert("skip"@[0] == 's');
    assert("into"@[0] == 'i');
}

/// The key that a word stands for.
pub fn classify_field_key(word: &str) -> (r: FieldKey)
    ensures
        r == field_key(word@),
{
    if same_text(word, "rename") {
        FieldKey::Rename
    } else if same_text(word, "transform_fn") {
        FieldKey::TransformFn
    } else if same_text(word, "skip") {
        FieldKey::Skip
    } else if same_text(word, "into") {
        FieldKey::Into
    } else {
        FieldKey::Unknown
    }
}

impl FieldAttrs {
    /// Nothing was asked for.
    pub open spec fn bare(self) -> bool {
        &&& self.rename is None
        &&& self.rename_span is None
        &&& self.transform_fn is None
        &&& !self.skip
        &&& !self.into_flag
    }

    /// The recorded span of a `rename` is the one that the renamed
    /// identifier carries.
    pub open spec fn wf(self) -> bool {
        match self.rename {
            Some(id) => self.rename_span == Some(ident_span(id)),
            None => self.rename_span is None,
        }
    }

    /// The keys do not contradict each other: `skip` stands alone, and
    /// `transform_fn` and `into` do not meet.
    pub open spec fn consistent(self) -> bool {
        &&& self.skip ==> self.rename is None && self.transform_fn is None && !self.into_flag
        &&& self.transform_fn is Some ==> !self.into_flag
    }

    /// The contradiction among the keys that is reported, if there is one.
    pub open spec fn conflict(self) -> Option<Violation> {
        if self.skip && (self.rename is Some || self.transform_fn is Some || self.into_flag) {
            Some(Violation::SkipConflict)
        } else if self.transform_fn is Some && self.into_flag {
            Some(Violation::TransformIntoConflict)
        } else {
            None
        }
    }

    /// How the field gets its value: `skip` goes before `transform_fn`,
    /// which goes before `into`.
    pub open spec fn action(self) -> Action {
        if self.skip {
            Action::Skip
        } else if let Some(f) = self.transform_fn {
            Action::Transform(f)
        } else if self.into_flag {
            Action::Into
        } else {
            Action::Direct
        }
    }

    /// Why a `rename` with this value is turned down for certain, if it is.
    pub open spec fn rename_refusal(self, value: Seq<char>) -> Option<Violation> {
        if blank(value) {
            Some(Violation::EmptyRename)
        } else if self.rename is Some {
            Some(Violation::DuplicateRename)
        } else if !ident_text(value) {
            Some(Violation::InvalidRename)
        } else {
            None
        }
    }

    /// The attributes of a field that asks for nothing.
    pub fn new() -> (r: FieldAttrs)
        ensures
            r.bare(),
            r.wf(),
            r.consistent(),
    {
        FieldAttrs { rename: None, rename_span: None, transform_fn: None, skip: false, into_flag: false }
    }

    /// `after` is `self` with a `rename` to `value`, read at `span`: the
    /// renamed identifier points at `span` and, for ASCII text, is spelled
    /// as `value`; nothing else changes.
    pub open spec fn renamed(self, value: Seq<char>, span: Span, after: FieldAttrs) -> bool {
        &&& after.rename matches Some(id)
        &&& ident_span(id) == span
        &&& ascii_text(value) ==> ident_name(id) == value
        &&& after.rename_span == Some(span)
        &&& after.transform_fn == self.transform_fn
        &&& after.skip == self.skip
        &&& after.into_flag == self.into_flag
    }

    /// What `rename = "value"` comes to. A value that is turned down for
    /// certain leaves the attributes as they were. Any other value is taken
    /// note of, but for one: text that is not ASCII may also be turned down
    /// as no identifier, since the lexer at work has the last word on it.
    pub open spec fn rename_outcome(
        self,
        value: Seq<char>,
        span: Span,
        after: FieldAttrs,
        r: Result<(), Violation>,
    ) -> bool {
        match self.rename_refusal(value) {
            Some(kind) => r == Err::<(), Violation>(kind) && after == self,
            None => {
                ||| r is Ok && self.renamed(value, span, after)
                ||| !ascii_text(value) && r == Err::<(), Violation>(Violation::InvalidRename)
                    && after == self
            },
        }
    }

    /// Takes note of `rename = "value"`, where the literal stands at `span`.
    /// A blank value is turned down first, then a second `rename`, then a
    /// value that is no identifier.
    pub fn accept_rename(&mut self, value: &str, span: Span) -> (r: Result<(), Violation>)
        ensures
            old(self).rename_outcome(value@, span, *final(self), r),
            old(self).wf() ==> final(self).wf(),
    {
        if is_blank(value) {
            return Err(Violation::EmptyRename);
        }
        if self.rename.is_some() {
            return Err(Violation::DuplicateRename);
        }
        if !is_ident_text(value) {
            return Err(Violation::InvalidRename);
        }
        let made = if is_ascii_text(value) {
            Some(new_ident(value, span))
        } else {
            try_ident(value, span)
        };
        match made {
            Some(id) => {
                self.rename_span = Some(span);
                self.rename = Some(id);
                Ok(())
            },
            None => Err(Violation::InvalidRename),
        }
    }

    /// Whether `transform_fn` may still be given: not after an earlier one.
    pub fn claim_transform(&self) -> (r: Result<(), Violation>)
        ensures
            match r {
                Ok(()) => self.transform_fn is None,
                Err(v) => self.transform_fn is Some && v == Violation::DuplicateTransformFn,
            },
    {
        if self.transform_fn.is_some() {
            Err(Violation::DuplicateTransformFn)
        } else {
            Ok(())
        }
    }

    /// Takes note of `transform_fn = path`.
    pub fn set_transform(&mut self, path: Path)
        ensures
            final(self).transform_fn == Some(path),
            final(self).rename == old(self).rename,
            final(self).rename_span == old(self).rename_span,
            final(self).skip == old(self).skip,
            final(self).into_flag == old(self).into_flag,
    {
        self.transform_fn = Some(path);
    }

    /// Takes note of `skip`; a second `skip` is turned down.
    pub fn accept_skip(&mut self) -> (r: Result<(), Violation>)
        ensures
            match r {
                Ok(()) => !old(self).skip && *final(self) == (FieldAttrs { skip: true, ..*old(self) }),
                Err(v) => old(self).skip && v == Violation::DuplicateSkip && *final(self) == *old(self),
            },
    {
        if self.skip {
            return Err(Violation::DuplicateSkip);
        }
        self.skip = true;
        Ok(())
    }

    /// Takes note of `into`; a second `into` is turned down.
    pub fn accept_into(&mut self) -> (r: Result<(), Violation>)
        ensures
            match r {
                Ok(()) => !old(self).into_flag && *final(self) == (FieldAttrs {
                    into_flag: true,
                    ..*old(self)
                }),
                Err(v) => old(self).into_flag && v == Violation::DuplicateInto && *final(self) == *old(
                    self
                ),
            },
    {
        if self.into_flag {
            return Err(Violation::DuplicateInto);
        }
        self.into_flag = true;
        Ok(())
    }

    /// Looks for keys that contradict each other, `skip` first.
    pub fn check(&self) -> (r: Result<(), Violation>)
        ensures
            match r {
                Ok(()) => self.conflict() is None && self.consistent(),
                Err(v) => self.conflict() == Some(v),
            },
    {
        if self.skip && (self.rename.is_some() || self.transform_fn.is_some() || self.into_flag) {
            return Err(Violation::SkipConflict);
        }
        if self.transform_fn.is_some() && self.into_flag {
            return Err(Violation::TransformIntoConflict);
        }
        Ok(())
    }
}

impl Default for FieldAttrs {
    /// The attributes of a field that asks for nothing.
    fn default() -> (r: FieldAttrs)
        ensures
            r.bare(),
    {
        FieldAttrs::new()
    }
}

/// Attributes are consistent exactly when no contradiction is reported for
/// them.
pub proof fn consistent_without_conflict(a: FieldAttrs)
    ensures
        a.consistent() <==> a.conflict() is None,
{
}

/// Attributes that pass the reading give `Skip` only for a field that asks
/// for nothing else, and never hold a function beside `into`: each of the
/// three keys that shape the value decides alone.
pub proof fn consistent_action_is_unambiguous(a: FieldAttrs)
    requires
        a.consistent(),
    ensures
        a.action() is Skip <==> a.skip,
        a.action() is Transform <==> a.transform_fn is Some,
        a.action() is Into <==> a.into_flag,
        a.action() is Direct <==> !a.skip && a.transform_fn is None && !a.into_flag,
{
}

/// How a field with these attributes gets its value.
pub fn decide_action(a: &FieldAttrs) -> (r: FieldAction<'_>)
    ensures
        r@ == a.action(),
{
    if a.skip {
        FieldAction::Skip
    } else if let Some(f) = &a.transform_fn {
        FieldAction::Transform(f)
    } else if a.into_flag {
        FieldAction::Into
    } else {
        FieldAction::Direct
    }
}

/// The attributes read so far from one field, and the rule that was found
/// broken, if any.
pub struct FieldScan {
    pub attrs: FieldAttrs,
    pub failure: Option<DtoError>,
}

/// The key of an entry: the one that its word stands for, and none of the
/// four where the entry's path is no single word.
pub open spec fn entry_key(word: Option<Seq<char>>) -> FieldKey {
    match word {
        Some(word) => field_key(word),
        None => FieldKey::Unknown,
    }
}

/// The entry broke the rule `kind` at `span`: the attributes stay as they
/// were, the failure is recorded, and the error that ends the reading shows
/// the rule's message at that span.
pub open spec fn refused(
    before: FieldScan,
    kind: Violation,
    span: Span,
    after: FieldScan,
    r: Result<(), syn::Error>,
) -> bool {
    &&& r matches Err(e)
    &&& error_message(e) == kind.text()
    &&& error_tokens(e) == compile_error_tokens(span, kind.text())
    &&& after.attrs == before.attrs
    &&& after.failure == Some(DtoError::Rule { kind, span })
}

/// What `rename` comes to, given what reading its value gave: the parser's
/// error goes through and nothing changes; a value that is turned down is
/// refused at the value's span; any other value is taken note of, but that
/// text which is not ASCII may also be refused as no identifier.
pub open spec fn rename_noted(
    before: FieldScan,
    value: Result<StrValue, syn::Error>,
    after: FieldScan,
    r: Result<(), syn::Error>,
) -> bool {
    match value {
        Err(e) => r == Err::<(), syn::Error>(e) && after == before,
        Ok(lit) => match before.attrs.rename_refusal(lit.text@) {
            Some(kind) => refused(before, kind, lit.span, after, r),
            None => {
                ||| {
                    &&& r is Ok
                    &&& after.failure == before.failure
                    &&& before.attrs.renamed(lit.text@, lit.span, after.attrs)
                }
                ||| {
                    &&& !ascii_text(lit.text@)
                    &&& refused(before, Violation::InvalidRename, lit.span, after, r)
                }
            },
        },
    }
}

/// What `transform_fn` comes to, given what reading its value gave: a
/// second `transform_fn` is refused at the key, whatever its value; else the
/// parser's error goes through and nothing changes, or the path is taken
/// note of.
pub open spec fn transform_noted(
    before: FieldScan,
    key_span: Span,
    value: Result<Path, syn::Error>,
    after: FieldScan,
    r: Result<(), syn::Error>,
) -> bool {
    if before.attrs.transform_fn is Some {
        refused(before, Violation::DuplicateTransformFn, key_span, after, r)
    } else {
        match value {
            Err(e) => r == Err::<(), syn::Error>(e) && after == before,
            Ok(path) => {
                &&& r is Ok
                &&& after.failure == before.failure
                &&& after.attrs == (FieldAttrs { transform_fn: Some(path), ..before.attrs })
            },
        }
    }
}

/// What `skip` comes to: a second `skip` is refused at the key, the first
/// is taken note of.
pub open spec fn skip_noted(
    before: FieldScan,
    key_span: Span,
    after: FieldScan,
    r: Result<(), syn::Error>,
) -> bool {
    if before.attrs.skip {
        refused(before, Violation::DuplicateSkip, key_span, after, r)
    } else {
        &&& r is Ok
        &&& after.failure == before.failure
        &&& after.attrs == (FieldAttrs { skip: true, ..before.attrs })
    }
}

/// What `into` comes to: a second `into` is refused at the key, the first
/// is taken note of.
pub open spec fn into_noted(
    before: FieldScan,
    key_span: Span,
    after: FieldScan,
    r: Result<(), syn::Error>,
) -> bool {
    if before.attrs.into_flag {
        refused(before, Violation::DuplicateInto, key_span, after, r)
    } else {
        &&& r is Ok
        &&& after.failure == before.failure
        &&& after.attrs == (FieldAttrs { into_flag: true, ..before.attrs })
    }
}

/// What one entry with the key `word` at `key_span` comes to. For `rename`
/// and for a first `transform_fn` it depends on what reading the value
/// gives.
pub open spec fn entry_visited(
    before: FieldScan,
    word: Option<Seq<char>>,
    key_span: Span,
    after: FieldScan,
    r: Result<(), syn::Error>,
) -> bool {
    match entry_key(word) {
        FieldKey::Rename => exists|value: Result<StrValue, syn::Error>|
            rename_noted(before, value, after, r),
        FieldKey::TransformFn => if before.attrs.transform_fn is Some {
            refused(before, Violation::DuplicateTransformFn, key_span, after, r)
        } else {
            exists|value: Result<Path, syn::Error>|
                transform_noted(before, key_span, value, after, r)
        },
        FieldKey::Skip => skip_noted(before, key_span, after, r),
        FieldKey::Into => into_noted(before, key_span, after, r),
        FieldKey::Unknown => refused(before, Violation::UnknownFieldKey, key_span, after, r),
    }
}

impl FieldScan {
    /// The attributes are well formed, and a failure is a rule that an
    /// entry broke.
    pub open spec fn inv(self) -> bool {
        &&& self.attrs.wf()
        &&& match self.failure {
            Some(DtoError::Rule { kind, span }) => kind.in_entry(),
            Some(DtoError::Syntax(_)) => false,
            None => true,
        }
    }

    /// The scan that has read nothing.
    pub open spec fn start() -> FieldScan {
        FieldScan {
            attrs: FieldAttrs {
                rename: None,
                rename_span: None,
                transform_fn: None,
                skip: false,
                into_flag: false,
            },
            failure: None,
        }
    }

    /// A scan that has read nothing.
    pub fn new() -> (r: FieldScan)
        ensures
            r == FieldScan::start(),
            r.attrs.bare(),
            r.failure is None,
            r.inv(),
    {
        FieldScan { attrs: FieldAttrs::new(), failure: None }
    }

    /// Records a broken rule and makes the error that ends the reading.
    pub fn refuse(&mut self, kind: Violation, span: Span) -> (r: Result<(), syn::Error>)
        ensures
            refused(*old(self), kind, span, *final(self), r),
    {
        self.failure = Some(DtoError::Rule { kind, span });
        Err(new_error(span, kind.message()))
    }

    /// What the reading of one attribute leaves, given what the parser
    /// answered: the broken rule that was recorded, else the parser's
    /// error, else the scan to go on with.
    pub fn settle(self, walked: Result<(), syn::Error>) -> (r: Result<FieldScan, DtoError>)
        ensures
            r == settled(self, walked),
    {
        match self.failure {
            Some(e) => Err(e),
            None => match walked {
                Err(e) => Err(DtoError::Syntax(e)),
                Ok(()) => Ok(FieldScan { attrs: self.attrs, failure: None }),
            },
        }
    }

    /// Takes note of `rename`, given what reading its value gave.
    pub fn note_rename(&mut self, value: Result<StrValue, syn::Error>) -> (r: Result<(), syn::Error>)
        ensures
            rename_noted(*old(self), value, *final(self), r),
            old(self).inv() ==> final(self).inv(),
    {
        let lit = match value {
            Ok(lit) => lit,
            Err(e) => {
                return Err(e);
            },
        };
        match self.attrs.accept_rename(lit.text.as_str(), lit.span) {
            Ok(()) => Ok(()),
            Err(v) => self.refuse(v, lit.span),
        }
    }

    /// Takes note of `transform_fn`, given what reading its value gave.
    pub fn note_transform(&mut self, key_span: Span, value: Result<Path, syn::Error>) -> (r: Result<
        (),
        syn::Error,
    >)
        ensures
            transform_noted(*old(self), key_span, value, *final(self), r),
            old(self).inv() ==> final(self).inv(),
    {
        match self.attrs.claim_transform() {
            Ok(()) => {},
            Err(v) => {
                return self.refuse(v, key_span);
            },
        }
        match value {
            Ok(path) => {
                self.attrs.set_transform(path);
                Ok(())
            },
            Err(e) => Err(e),
        }
    }

    /// Takes note of `skip`.
    pub fn note_skip(&mut self, key_span: Span) -> (r: Result<(), syn::Error>)
        ensures
            skip_noted(*old(self), key_span, *final(self), r),
            old(self).inv() ==> final(self).inv(),
    {
        match self.attrs.accept_skip() {
            Ok(()) => Ok(()),
            Err(v) => self.refuse(v, key_span),
        }
    }

    /// Takes note of `into`.
    pub fn note_into(&mut self, key_span: Span) -> (r: Result<(), syn::Error>)
        ensures
            into_noted(*old(self), key_span, *final(self), r),
            old(self).inv() ==> final(self).inv(),
    {
        match self.attrs.accept_into() {
            Ok(()) => Ok(()),
            Err(v) => self.refuse(v, key_span),
        }
    }
}

/// Handles one entry of a field's `dto(...)` list: looks at its key, reads
/// the value that the key calls for, and takes note of it. A second
/// `transform_fn` is refused before its value is read.
pub fn visit_field_key(scan: &mut FieldScan, meta: &ParseNestedMeta<'_>) -> (r: Result<
    (),
    syn::Error,
>)
    ensures
        entry_visited(*old(scan), nested_key(*meta), nested_key_span(*meta), *final(scan), r),
        old(scan).inv() ==> final(scan).inv(),
{
    let key = match meta_key(meta) {
        Some(word) => classify_field_key(word.as_str()),
        None => FieldKey::Unknown,
    };
    match key {
        FieldKey::Rename => {
            let value = meta_str_value(meta);
            let r = scan.note_rename(value);
            assert(rename_noted(*old(scan), value, *scan, r));
            r
        },
        FieldKey::TransformFn => {
            let key_span = meta_key_span(meta);
            if scan.attrs.transform_fn.is_some() {
                scan.refuse(Violation::DuplicateTransformFn, key_span)
            } else {
                let value = meta_path_value(meta);
                let r = scan.note_transform(key_span, value);
                assert(transform_noted(*old(scan), key_span, value, *scan, r));
                r
            }
        },
        FieldKey::Skip => scan.note_skip(meta_key_span(meta)),
        FieldKey::Into => scan.note_into(meta_key_span(meta)),
        FieldKey::Unknown => scan.refuse(Violation::UnknownFieldKey, meta_key_span(meta)),
    }
}

/// What walking the list of one attribute comes to, from the scan read so
/// far: the scan after it, and the parser's answer. The attribute's entries
/// are handed to `visit_field_key` one after the other, until one fails.
pub uninterp spec fn field_walk(attr: Attribute, before: FieldScan) -> (
    FieldScan,
    Result<(), syn::Error>,
);

/// What the reading of one attribute leaves, given what the parser
/// answered: the broken rule that was recorded, else the parser's error,
/// else the scan to go on with.
pub open spec fn settled(scan: FieldScan, walked: Result<(), syn::Error>) -> Result<
    FieldScan,
    DtoError,
> {
    match scan.failure {
        Some(e) => Err(e),
        None => match walked {
            Err(e) => Err(DtoError::Syntax(e)),
            Ok(()) => Ok(scan),
        },
    }
}

/// What the reading ends in, once every attribute is read: the attributes,
/// or the contradiction among them, at `site`.
pub open spec fn concluded(attrs: FieldAttrs, site: Span) -> Result<FieldAttrs, DtoError> {
    match attrs.conflict() {
        Some(kind) => Err(DtoError::Rule { kind, span: site }),
        None => Ok(attrs),
    }
}

/// The reading of the attributes from the `i`-th on, with `scan` read so
/// far. An attribute that is no `dto` attribute is passed over. A `dto`
/// attribute is walked; what the walk leaves either ends the reading or is
/// the scan that the next attribute starts from. Behind the last attribute
/// the reading is concluded.
pub open spec fn reading_from(attrs: Seq<Attribute>, site: Span, i: int, scan: FieldScan) -> Result<
    FieldAttrs,
    DtoError,
>
    decreases attrs.len() - i,
{
    if i < 0 || i >= attrs.len() {
        concluded(scan.attrs, site)
    } else if !attr_named(attrs[i], "dto"@) {
        reading_from(attrs, site, i + 1, scan)
    } else {
        let walk = field_walk(attrs[i], scan);
        match settled(walk.0, walk.1) {
            Ok(next) => reading_from(attrs, site, i + 1, next),
            Err(e) => Err(e),
        }
    }
}

/// `Attribute::parse_nested_meta` with `visit_field_key` as the logic: the
/// entries of the attribute's list are handed to it one after the other,
/// until one fails. The contract gives the outcome its name. The scan is
/// touched by those calls only, so what each of them keeps is kept.
#[verifier::external_body]
fn walk_field_attr(attr: &Attribute, scan: &mut FieldScan) -> (r: Result<(), syn::Error>)
    requires
        old(scan).inv(),
    ensures
        (*final(scan), r) == field_walk(*attr, *old(scan)),
        final(scan).inv(),
{
    attr.parse_nested_meta(|meta| visit_field_key(scan, &meta))
}

/// The attributes that the attributes of a field ask for, or what is wrong
/// with them: the reading of all attributes, from a scan that has read
/// nothing.
pub open spec fn reading_of(attrs: Seq<Attribute>, site: Span) -> Result<FieldAttrs, DtoError> {
    reading_from(attrs, site, 0, FieldScan::start())
}

/// What holds of the reading of a field's attributes whatever the walks
/// give: attributes that come out are well formed and free of
/// contradictions, an error that is a rule is a rule for fields, and a
/// contradiction is reported at `site`. Where no attribute is a `dto`
/// attribute, the reading is the attributes that ask for nothing.
pub open spec fn within_field_rules(attrs: Seq<Attribute>, site: Span, r: Result<FieldAttrs, DtoError>) -> bool {
    &&& match r {
        Ok(a) => a.wf() && a.consistent() && a.conflict() is None,
        Err(DtoError::Rule { kind, span }) => {
            &&& kind.on_field()
            &&& !kind.in_entry() ==> span == site
        },
        Err(DtoError::Syntax(_)) => true,
    }
    &&& (forall|i: int| 0 <= i < attrs.len() ==> !attr_named(#[trigger] attrs[i], "dto"@)) ==> (r
        matches Ok(a) && a.bare())
}

/// What the reading of a field's attributes ends in, once every attribute
/// is read: the attributes, or the contradiction among them, at `site`.
pub fn conclude(attrs: FieldAttrs, site: Span) -> (r: Result<FieldAttrs, DtoError>)
    ensures
        r == concluded(attrs, site),
        r is Ok ==> attrs.consistent(),
{
    match attrs.check() {
        Ok(()) => Ok(attrs),
        Err(kind) => Err(DtoError::Rule { kind, span: site }),
    }
}

/// Reads the `dto` attributes of one field. Other attributes are passed
/// over. The entries are taken in order and the first broken rule or
/// unreadable entry ends the reading; contradictions among the keys are
/// looked for at the end and reported at `site`.
pub fn extract_dto_field_attrs(attrs: &[Attribute], site: Span) -> (r: Result<FieldAttrs, DtoError>)
    ensures
        r == reading_of(attrs@, site),
        within_field_rules(attrs@, site, r),
{
    let mut scan = FieldScan::new();
    let mut i: usize = 0;
    while i < attrs.len()
        invariant
            i <= attrs@.len(),
            scan.inv(),
            scan.failure is None,
            (forall|j: int| 0 <= j < i ==> !attr_named(#[trigger] attrs@[j], "dto"@))
                ==> scan.attrs.bare(),
            reading_of(attrs@, site) == reading_from(attrs@, site, i as int, scan),
        decreases attrs@.len() - i,
    {
        if attr_is(&attrs[i], "dto") {
            let ghost before = scan;
            let walked = walk_field_attr(&attrs[i], &mut scan);
            assert(field_walk(attrs@[i as int], before) == (scan, walked));
            scan = match scan.settle(walked) {
                Ok(scan) => scan,
                Err(e) => {
                    return Err(e);
                },
            };
        }
        i = i + 1;
    }
    conclude(scan.attrs, site)
}

} // verus!
