//! The attribute of the struct: which type the mapping starts from.

use vstd::prelude::*;
use proc_macro2::Span;
use syn::meta::ParseNestedMeta;
use syn::{Attribute, Path};
use crate::error::{
    compile_error_tokens, error_message, error_tokens, new_error, DtoError, Violation,
};
use crate::syntax::{
    attr_is, attr_named, meta_key, meta_key_span, meta_path_value, nested_key, nested_key_span,
};
use crate::text::same_text;

verus! {

/// The keys that the struct's `dto` attribute knows.
#[derive(Clone, Copy, Debug, PartialEq, Eq)]
pub enum StructKey {
    From,
    Unknown,
}

/// The key that a word stands for.
pub open spec fn struct_key(word: Seq<char>) -> StructKey {
    if word == "from"@ {
        StructKey::From
    } else {
        StructKey::Unknown
    }
}

/// The key that a word stands for.
pub fn classify_struct_key(word: &str) -> (r: StructKey)
    ensures
        r == struct_key(word@),
{
    if same_text(word, "from") {
        StructKey::From
    } else {
        StructKey::Unknown
    }
}

/// The source type read so far from the struct's attributes, and the rule
/// that was found broken, if any.
pub struct SourceScan {
    pub found: Option<Path>,
    pub failure: Option<DtoError>,
}

/// The key of an entry: the one that its word stands for, and an unknown
/// one where the entry's path is no single word.
pub open spec fn entry_key(word: Option<Seq<char>>) -> StructKey {
    match word {
        Some(word) => struct_key(word),
        None => StructKey::Unknown,
    }
}

/// The entry broke the rule `kind` at `span`: the source type stays as it
/// was, the failure is recorded, and the error that ends the reading shows
/// the rule's message at that span.
pub open spec fn refused(
    before: SourceScan,
    kind: Violation,
    span: Span,
    after: SourceScan,
    r: Result<(), syn::Error>,
) -> bool {
    &&& r matches Err(e)
    &&& error_message(e) == kind.text()
    &&& error_tokens(e) == compile_error_tokens(span, kind.text())
    &&& after.found == before.found
    &&& after.failure == Some(DtoError::Rule { kind, span })
}

/// What `from` comes to, given what reading its value gave: a second `from`
/// is refused at the key, whatever its value; else the parser's error goes
/// through and nothing changes, or the path is taken note of.
pub open spec fn from_noted(
    before: SourceScan,
    key_span: Span,
    value: Result<Path, syn::Error>,
    after: SourceScan,
    r: Result<(), syn::Error>,
) -> bool {
    if before.found is Some {
        refused(before, Violation::DuplicateFrom, key_span, after, r)
    } else {
        match value {
            Err(e) => r == Err::<(), syn::Error>(e) && after == before,
            Ok(path) => {
                &&& r is Ok
                &&& after.failure == before.failure
                &&& after.found == Some(path)
            },
        }
    }
}

/// What one entry with the key `word` at `key_span` comes to. For a first
/// `from` it depends on what reading the value gives.
pub open spec fn entry_visited(
    before: SourceScan,
    word: Option<Seq<char>>,
    key_span: Span,
    after: SourceScan,
    r: Result<(), syn::Error>,
) -> bool {
    match entry_key(word) {
        StructKey::From => if before.found is Some {
            refused(before, Violation::DuplicateFrom, key_span, after, r)
        } else {
            exists|value: Result<Path, syn::Error>| from_noted(before, key_span, value, after, r)
        },
        StructKey::Unknown => refused(before, Violation::UnknownStructKey, key_span, after, r),
    }
}

impl SourceScan {
    /// A failure is a rule that an entry of the struct's attribute broke.
    pub open spec fn inv(self) -> bool {
        match self.failure {
            Some(DtoError::Rule { kind, span }) => kind is DuplicateFrom || kind is UnknownStructKey,
            Some(DtoError::Syntax(_)) => false,
            None => true,
        }
    }

    /// The scan that has read nothing.
    pub open spec fn start() -> SourceScan {
        SourceScan { found: None, failure: None }
    }

    /// A scan that has read nothing.
    pub fn new() -> (r: SourceScan)
        ensures
            r == SourceScan::start(),
    {
        SourceScan { found: None, failure: None }
    }

    /// Records a broken rule and makes the error that ends the reading.
    pub fn refuse(&mut self, kind: Violation, span: Span) -> (r: Result<(), syn::Error>)
        ensures
            refused(*old(self), kind, span, *final(self), r),
    {
        self.failure = Some(DtoError::Rule { kind, span });
        Err(new_error(span, kind.message()))
    }

    /// What the reading of one attribute leaves, given what the parser
    /// answered: the broken rule that was recorded, else the parser's
    /// error, else the scan to go on with.
    pub fn settle(self, walked: Result<(), syn::Error>) -> (r: Result<SourceScan, DtoError>)
        ensures
            r == settled(self, walked),
    {
        match self.failure {
            Some(e) => Err(e),
            None => match walked {
                Err(e) => Err(DtoError::Syntax(e)),
                Ok(()) => Ok(SourceScan { found: self.found, failure: None }),
            },
        }
    }

    /// Takes note of `from`, given what reading its value gave.
    pub fn note_from(&mut self, key_span: Span, value: Result<Path, syn::Error>) -> (r: Result<
        (),
        syn::Error,
    >)
        ensures
            from_noted(*old(self), key_span, value, *final(self), r),
            old(self).inv() ==> final(self).inv(),
    {
        if self.found.is_some() {
            return self.refuse(Violation::DuplicateFrom, key_span);
        }
        match value {
            Ok(path) => {
                self.found = Some(path);
                Ok(())
            },
            Err(e) => Err(e),
        }
    }

    /// The source type at the end of the reading: the one that was found,
    /// or the complaint, at `site`, that none was named.
    pub fn finish(self, site: Span) -> (r: Result<Path, DtoError>)
        ensures
            r == finished(self, site),
    {
        match self.found {
            Some(path) => Ok(path),
            None => Err(DtoError::Rule { kind: Violation::MissingFrom, span: site }),
        }
    }
}

/// Handles one entry of the struct's `dto(...)` list: `from` takes a path,
/// once; any other key is turned down. A second `from` is refused before
/// its value is read.
pub fn visit_struct_key(scan: &mut SourceScan, meta: &ParseNestedMeta<'_>) -> (r: Result<
    (),
    syn::Error,
>)
    ensures
        entry_visited(*old(scan), nested_key(*meta), nested_key_span(*meta), *final(scan), r),
        old(scan).inv() ==> final(scan).inv(),
{
    let key = match meta_key(meta) {
        Some(word) => classify_struct_key(word.as_str()),
        None => StructKey::Unknown,
    };
    let key_span = meta_key_span(meta);
    match key {
        StructKey::From => {
            if scan.found.is_some() {
                scan.refuse(Violation::DuplicateFrom, key_span)
            } else {
                let value = meta_path_value(meta);
                let r = scan.note_from(key_span, value);
                assert(from_noted(*old(scan), key_span, value, *scan, r));
                r
            }
        },
        StructKey::Unknown => scan.refuse(Violation::UnknownStructKey, key_span),
    }
}

/// What walking the list of one attribute comes to, from the scan read so
/// far: the scan after it, and the parser's answer. The attribute's entries
/// are handed to `visit_struct_key` one after the other, until one fails.
pub uninterp spec fn struct_walk(attr: Attribute, before: SourceScan) -> (
    SourceScan,
    Result<(), syn::Error>,
);

/// What the reading of one attribute leaves, given what the parser
/// answered: the broken rule that was recorded, else the parser's error,
/// else the scan to go on with.
pub open spec fn settled(scan: SourceScan, walked: Result<(), syn::Error>) -> Result<
    SourceScan,
    DtoError,
> {
    match scan.failure {
        Some(e) => Err(e),
        None => match walked {
            Err(e) => Err(DtoError::Syntax(e)),
            Ok(()) => Ok(scan),
        },
    }
}

/// What the reading ends in, once every attribute is read: the source type
/// that was found, or the complaint, at `site`, that none was named.
pub open spec fn finished(scan: SourceScan, site: Span) -> Result<Path, DtoError> {
    match scan.found {
        Some(path) => Ok(path),
        None => Err(DtoError::Rule { kind: Violation::MissingFrom, span: site }),
    }
}

/// The reading of the attributes from the `i`-th on, with `scan` read so
/// far. An attribute that is no `dto` attribute is passed over. A `dto`
/// attribute is walked; what the walk leaves either ends the reading or is
/// the scan that the next attribute starts from. Behind the last attribute
/// the reading is finished.
pub open spec fn source_from(attrs: Seq<Attribute>, site: Span, i: int, scan: SourceScan) -> Result<
    Path,
    DtoError,
>
    decreases attrs.len() - i,
{
    if i < 0 || i >= attrs.len() {
        finished(scan, site)
    } else if !attr_named(attrs[i], "dto"@) {
        source_from(attrs, site, i + 1, scan)
    } else {
        let walk = struct_walk(attrs[i], scan);
        match settled(walk.0, walk.1) {
            Ok(next) => source_from(attrs, site, i + 1, next),
            Err(e) => Err(e),
        }
    }
}

/// The source type that the attributes of a struct name, or what is wrong
/// with them: the reading of all attributes, from a scan that has read
/// nothing.
pub open spec fn source_of(attrs: Seq<Attribute>, site: Span) -> Result<Path, DtoError> {
    source_from(attrs, site, 0, SourceScan::start())
}

/// `Attribute::parse_nested_meta` with `visit_struct_key` as the logic: the
/// entries of the attribute's list are handed to it one after the other,
/// until one fails. The contract gives the outcome its name. The scan is
/// touched by those calls only, so what each of them keeps is kept.
#[verifier::external_body]
fn walk_struct_attr(attr: &Attribute, scan: &mut SourceScan) -> (r: Result<(), syn::Error>)
    requires
        old(scan).inv(),
    ensures
        (*final(scan), r) == struct_walk(*attr, *old(scan)),
        final(scan).inv(),
{
    attr.parse_nested_meta(|meta| visit_struct_key(scan, &meta))
}

/// What holds of the reading of a struct's attributes whatever the walks
/// give: an error that is a rule is a rule for structs, and a missing
/// `from` is reported at `site`. Where no attribute is a `dto` attribute,
/// the reading is the missing `from`.
pub open spec fn within_struct_rules(attrs: Seq<Attribute>, site: Span, r: Result<Path, DtoError>) -> bool {
    &&& match r {
        Ok(_) => true,
        Err(DtoError::Rule { kind, span }) => {
            &&& kind.on_struct()
            &&& kind is MissingFrom ==> span == site
        },
        Err(DtoError::Syntax(_)) => true,
    }
    &&& (forall|i: int| 0 <= i < attrs.len() ==> !attr_named(#[trigger] attrs[i], "dto"@)) ==> r
        == Err::<Path, DtoError>(DtoError::Rule { kind: Violation::MissingFrom, span: site })
}

/// Reads the source type from the `dto` attributes of the struct. Other
/// attributes are passed over. The entries are taken in order and the first
/// broken rule or unreadable entry ends the reading; that no source type was
/// named is reported at `site`.
pub fn find_source_type(attrs: &[Attribute], site: Span) -> (r: Result<Path, DtoError>)
    ensures
        r == source_of(attrs@, site),
        within_struct_rules(attrs@, site, r),
{
    let mut scan = SourceScan::new();
    let mut i: usize = 0;
    while i < attrs.len()
        invariant
            i <= attrs@.len(),
            scan.inv(),
            scan.failure is None,
            (forall|j: int| 0 <= j < i ==> !attr_named(#[trigger] attrs@[j], "dto"@))
                ==> scan.found is None,
            source_of(attrs@, site) == source_from(attrs@, site, i as int, scan),
        decreases attrs@.len() - i,
    {
        if attr_is(&attrs[i], "dto") {
            let ghost before = scan;
            let walked = walk_struct_attr(&attrs[i], &mut scan);
            assert(struct_walk(attrs@[i as int], before) == (scan, walked));
            scan = match scan.settle(walked) {
                Ok(scan) => scan,
                Err(e) => {
                    return Err(e);
                },
            };
        }
        i = i + 1;
    }
    scan.finish(site)
}

} // verus!
