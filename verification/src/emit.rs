//! The tokens of the conversion: one entry for each field, and the impl
//! around them.

use vstd::prelude::*;
use proc_macro2::{Delimiter, Ident, Spacing, Span, TokenStream};
use syn::{Generics, Path};
use crate::error::DtoError;
use crate::field::{decide_action, Action, FieldAction, FieldAttrs};
use crate::syntax::{
    impl_generics_tokens, path_tokens, push_impl_generics, push_path, push_type_generics,
    push_where_clause, type_generics_tokens, where_clause_tokens,
};
use crate::text::{ascii_text, ident_text};
use crate::tokens::{
    empty_stream, ident_span, ident_token, new_ident, push_group, push_ident, push_mark,
    push_stream, span_of, stream_tokens, Tok,
};

verus! {

/// The path separator `::`.
pub open spec fn colon2(span: Span) -> Seq<Tok> {
    seq![Tok::Mark(':', Spacing::Joint, span), Tok::Mark(':', Spacing::Alone, span)]
}

/// `source.field`: the field `source` of the value that is converted.
pub open spec fn access_tokens(source: Tok, span: Span) -> Seq<Tok> {
    seq![Tok::Word("source"@, span), Tok::Mark('.', Spacing::Alone, span), source]
}

/// `::core::convert::Into::into`.
pub open spec fn into_fn_tokens(span: Span) -> Seq<Tok> {
    colon2(span) + seq![Tok::Word("core"@, span)] + colon2(span) + seq![
        Tok::Word("convert"@, span),
    ] + colon2(span) + seq![Tok::Word("Into"@, span)] + colon2(span) + seq![
        Tok::Word("into"@, span),
    ]
}

/// `Default::default()`.
pub open spec fn default_call_tokens(site: Span) -> Seq<Tok> {
    seq![Tok::Word("Default"@, site)] + colon2(site) + seq![
        Tok::Word("default"@, site),
        Tok::Group(Delimiter::Parenthesis, Seq::empty(), site),
    ]
}

/// The entry of one field in the struct literal: the target field, a colon,
/// and the value in one of four shapes. A skipped field points at `site`;
/// every other shape points at `span`, but for the tokens of the two fields
/// and of the function, which point where they did.
pub open spec fn mapping_tokens(target: Tok, source: Tok, action: Action, span: Span, site: Span) -> Seq<
    Tok,
> {
    match action {
        Action::Skip => seq![target, Tok::Mark(':', Spacing::Alone, site)] + default_call_tokens(
            site,
        ),
        Action::Transform(f) => seq![target, Tok::Mark(':', Spacing::Alone, span)] + path_tokens(f)
            + seq![Tok::Group(Delimiter::Parenthesis, access_tokens(source, span), span)],
        Action::Into => seq![target, Tok::Mark(':', Spacing::Alone, span)] + into_fn_tokens(span)
            + seq![Tok::Group(Delimiter::Parenthesis, access_tokens(source, span), span)],
        Action::Direct => seq![target, Tok::Mark(':', Spacing::Alone, span)] + access_tokens(
            source,
            span,
        ),
    }
}

/// The entry of a skipped field does not read the source: it is the same
/// whatever source field and span are given.
pub proof fn skipped_mapping_ignores_the_source(
    target: Tok,
    source: Tok,
    other: Tok,
    span: Span,
    other_span: Span,
    site: Span,
)
    ensures
        mapping_tokens(target, source, Action::Skip, span, site) == mapping_tokens(
            target,
            other,
            Action::Skip,
            other_span,
            site,
        ),
{
}

/// Every entry opens with the target field and a colon.
pub proof fn mapping_opens_with_the_target(
    target: Tok,
    source: Tok,
    action: Action,
    span: Span,
    site: Span,
)
    ensures
        mapping_tokens(target, source, action, span, site).len() >= 2,
        mapping_tokens(target, source, action, span, site)[0] == target,
        mapping_tokens(target, source, action, span, site)[1] matches Tok::Mark(c, s, _) && c == ':'
            && s == Spacing::Alone,
{
}

/// Appends one identifier made of `word`.
fn push_word(ts: &mut TokenStream, word: &str, span: Span)
    requires
        ident_text(word@),
        ascii_text(word@),
    ensures
        stream_tokens(*final(ts)) == stream_tokens(*old(ts)).push(Tok::Word(word@, span)),
{
    let id = new_ident(word, span);
    push_ident(ts, &id);
}

/// Appends `::`.
fn push_colon2(ts: &mut TokenStream, span: Span)
    ensures
        stream_tokens(*final(ts)) == stream_tokens(*old(ts)) + colon2(span),
{
    push_mark(ts, ':', Spacing::Joint, span);
    push_mark(ts, ':', Spacing::Alone, span);
    assert(stream_tokens(*ts) =~= stream_tokens(*old(ts)) + colon2(span));
}

/// Appends `source.field`.
fn push_access(ts: &mut TokenStream, source_ident: &Ident, span: Span)
    ensures
        stream_tokens(*final(ts)) == stream_tokens(*old(ts)) + access_tokens(
            ident_token(*source_ident),
            span,
        ),
{
    proof {
        reveal_strlit("source");
    }
    push_word(ts, "source", span);
    push_mark(ts, '.', Spacing::Alone, span);
    push_ident(ts, source_ident);
    assert(stream_tokens(*ts) =~= stream_tokens(*old(ts)) + access_tokens(
        ident_token(*source_ident),
        span,
    ));
}

/// Appends `(source.field)`.
fn push_argument(ts: &mut TokenStream, source_ident: &Ident, span: Span)
    ensures
        stream_tokens(*final(ts)) == stream_tokens(*old(ts)).push(
            Tok::Group(
                Delimiter::Parenthesis,
                access_tokens(ident_token(*source_ident), span),
                span,
            ),
        ),
{
    let mut inner = empty_stream();
    push_access(&mut inner, source_ident, span);
    assert(stream_tokens(inner) =~= access_tokens(ident_token(*source_ident), span));
    push_group(ts, Delimiter::Parenthesis, inner, span);
}

/// Appends `::core::convert::Into::into`.
fn push_into_fn(ts: &mut TokenStream, span: Span)
    ensures
        stream_tokens(*final(ts)) == stream_tokens(*old(ts)) + into_fn_tokens(span),
{
    proof {
        reveal_strlit("core");
        reveal_strlit("convert");
        reveal_strlit("Into");
        reveal_strlit("into");
    }
    push_colon2(ts, span);
    push_word(ts, "core", span);
    push_colon2(ts, span);
    push_word(ts, "convert", span);
    push_colon2(ts, span);
    push_word(ts, "Into", span);
    push_colon2(ts, span);
    push_word(ts, "into", span);
    assert(stream_tokens(*ts) =~= stream_tokens(*old(ts)) + into_fn_tokens(span));
}

/// Appends `Default::default()`.
fn push_default_call(ts: &mut TokenStream, site: Span)
    ensures
        stream_tokens(*final(ts)) == stream_tokens(*old(ts)) + default_call_tokens(site),
{
    proof {
        reveal_strlit("Default");
        reveal_strlit("default");
    }
    push_word(ts, "Default", site);
    push_colon2(ts, site);
    push_word(ts, "default", site);
    let nothing = empty_stream();
    push_group(ts, Delimiter::Parenthesis, nothing, site);
    assert(stream_tokens(*ts) =~= stream_tokens(*old(ts)) + default_call_tokens(site));
}

/// The entry of the field `ident` in the struct literal, its value read
/// from the source field `source_ident` in the way that the attributes ask
/// for. `access_span` is where a mistake in reading the source field will
/// be reported, `site` where the macro was called.
pub fn generate_field_mapping(
    ident: &Ident,
    source_ident: &Ident,
    a: &FieldAttrs,
    access_span: Span,
    site: Span,
) -> (r: TokenStream)
    ensures
        stream_tokens(r) == mapping_tokens(
            ident_token(*ident),
            ident_token(*source_ident),
            a.action(),
            access_span,
            site,
        ),
{
    let mut ts = empty_stream();
    push_ident(&mut ts, ident);
    match decide_action(a) {
        FieldAction::Skip => {
            push_mark(&mut ts, ':', Spacing::Alone, site);
            push_default_call(&mut ts, site);
        },
        FieldAction::Transform(f) => {
            push_mark(&mut ts, ':', Spacing::Alone, access_span);
            push_path(&mut ts, f);
            push_argument(&mut ts, source_ident, access_span);
        },
        FieldAction::Into => {
            push_mark(&mut ts, ':', Spacing::Alone, access_span);
            push_into_fn(&mut ts, access_span);
            push_argument(&mut ts, source_ident, access_span);
        },
        FieldAction::Direct => {
            push_mark(&mut ts, ':', Spacing::Alone, access_span);
            push_access(&mut ts, source_ident, access_span);
        },
    }
    assert(stream_tokens(ts) =~= mapping_tokens(
        ident_token(*ident),
        ident_token(*source_ident),
        a.action(),
        access_span,
        site,
    ));
    ts
}

/// The source field that a field reads: the renamed one, or the one of its
/// own name.
pub open spec fn source_token(name: Ident, a: FieldAttrs) -> Tok {
    match a.rename {
        Some(renamed) => ident_token(renamed),
        None => ident_token(name),
    }
}

/// Where a mistake in reading the source field is reported: at the `rename`
/// string, or at the field's name.
pub open spec fn access_span(name: Ident, a: FieldAttrs) -> Span {
    match a.rename_span {
        Some(span) => span,
        None => ident_span(name),
    }
}

/// What stands in the struct literal for the field `name`, given what the
/// reading of its attributes came to: its mapping, or the report of the
/// error in its place.
pub open spec fn entry_tokens(name: Ident, reading: Result<FieldAttrs, DtoError>, site: Span) -> Seq<
    Tok,
> {
    match reading {
        Ok(a) => mapping_tokens(
            ident_token(name),
            source_token(name, a),
            a.action(),
            access_span(name, a),
            site,
        ),
        Err(e) => e.tokens(),
    }
}

/// The entries of a struct literal, a comma behind each.
pub open spec fn listed(entries: Seq<Seq<Tok>>, site: Span) -> Seq<Tok>
    decreases entries.len(),
{
    if entries.len() == 0 {
        Seq::empty()
    } else {
        listed(entries.drop_last(), site) + entries.last() + seq![
            Tok::Mark(',', Spacing::Alone, site),
        ]
    }
}

/// `Self { entries }`: the struct literal that the conversion returns.
pub open spec fn literal_tokens(entries: Seq<Seq<Tok>>, site: Span) -> Seq<Tok> {
    seq![
        Tok::Word("Self"@, site),
        Tok::Group(Delimiter::Brace, listed(entries, site), site),
    ]
}

/// `fn from(source: Source) -> Self { Self { entries } }`.
pub open spec fn from_fn_tokens(source: Path, entries: Seq<Seq<Tok>>, site: Span) -> Seq<Tok> {
    seq![
        Tok::Word("fn"@, site),
        Tok::Word("from"@, site),
        Tok::Group(
            Delimiter::Parenthesis,
            seq![Tok::Word("source"@, site), Tok::Mark(':', Spacing::Alone, site)] + path_tokens(
                source,
            ),
            site,
        ),
        Tok::Mark('-', Spacing::Joint, site),
        Tok::Mark('>', Spacing::Alone, site),
        Tok::Word("Self"@, site),
        Tok::Group(Delimiter::Brace, literal_tokens(entries, site), site),
    ]
}

/// `impl<..> From<Source> for Name<..> where .. { fn from .. }`: the whole
/// conversion, every token that is not taken from the item pointing at
/// `site`.
pub open spec fn impl_tokens(
    name: Ident,
    generics: Generics,
    source: Path,
    entries: Seq<Seq<Tok>>,
    site: Span,
) -> Seq<Tok> {
    seq![Tok::Word("impl"@, site)] + impl_generics_tokens(generics) + seq![
        Tok::Word("From"@, site),
        Tok::Mark('<', Spacing::Alone, site),
    ] + path_tokens(source) + seq![
        Tok::Mark('>', Spacing::Alone, site),
        Tok::Word("for"@, site),
        ident_token(name),
    ] + type_generics_tokens(generics) + where_clause_tokens(generics) + seq![
        Tok::Group(Delimiter::Brace, from_fn_tokens(source, entries, site), site),
    ]
}

/// What stands in the struct literal for the field `name`, given what the
/// reading of its attributes came to. A renamed field reads the renamed
/// source field, and mistakes in reading it are reported at the `rename`
/// string; an error is reported in the entry's place.
pub fn field_entry(name: &Ident, reading: &Result<FieldAttrs, DtoError>, site: Span) -> (r: TokenStream)
    ensures
        stream_tokens(r) == entry_tokens(*name, *reading, site),
{
    match reading {
        Ok(a) => {
            let source_ident = match &a.rename {
                Some(renamed) => renamed,
                None => name,
            };
            let span = match a.rename_span {
                Some(span) => span,
                None => span_of(name),
            };
            generate_field_mapping(name, source_ident, a, span, site)
        },
        Err(e) => e.to_compile_error(),
    }
}

/// The tokens of each stream of a list.
pub open spec fn all_tokens(entries: Seq<TokenStream>) -> Seq<Seq<Tok>> {
    entries.map_values(|ts: TokenStream| stream_tokens(ts))
}

/// The entries one after the other, a comma behind each.
fn list_entries(entries: &Vec<TokenStream>, site: Span) -> (r: TokenStream)
    ensures
        stream_tokens(r) == listed(all_tokens(entries@), site),
{
    let mut ts = empty_stream();
    let mut i: usize = 0;
    while i < entries.len()
        invariant
            i <= entries@.len(),
            stream_tokens(ts) == listed(all_tokens(entries@).take(i as int), site),
        decreases entries@.len() - i,
    {
        let ghost before = stream_tokens(ts);
        push_stream(&mut ts, &entries[i]);
        push_mark(&mut ts, ',', Spacing::Alone, site);
        proof {
            let all = all_tokens(entries@);
            let next = all.take(i + 1);
            assert(next.drop_last() =~= all.take(i as int));
            assert(next.last() == stream_tokens(entries@[i as int]));
            assert(stream_tokens(ts) =~= before + next.last() + seq![
                Tok::Mark(',', Spacing::Alone, site),
            ]);
        }
        i = i + 1;
    }
    proof {
        let all = all_tokens(entries@);
        assert(all.take(i as int) =~= all);
    }
    ts
}

/// The conversion from `source` into the struct `name` with the given
/// entries in its literal.
pub fn emit_impl(
    name: &Ident,
    generics: &Generics,
    source: &Path,
    entries: &Vec<TokenStream>,
    site: Span,
) -> (r: TokenStream)
    ensures
        stream_tokens(r) == impl_tokens(*name, *generics, *source, all_tokens(entries@), site),
{
    proof {
        reveal_strlit("impl");
        reveal_strlit("From");
        reveal_strlit("for");
        reveal_strlit("fn");
        reveal_strlit("from");
        reveal_strlit("source");
        reveal_strlit("Self");
    }
    let ghost listed_entries = all_tokens(entries@);

    let mut literal = empty_stream();
    push_word(&mut literal, "Self", site);
    push_group(&mut literal, Delimiter::Brace, list_entries(entries, site), site);
    assert(stream_tokens(literal) =~= literal_tokens(listed_entries, site));

    let mut parameter = empty_stream();
    push_word(&mut parameter, "source", site);
    push_mark(&mut parameter, ':', Spacing::Alone, site);
    push_path(&mut parameter, source);
    assert(stream_tokens(parameter) =~= seq![
        Tok::Word("source"@, site),
        Tok::Mark(':', Spacing::Alone, site),
    ] + path_tokens(*source));

    let mut body = empty_stream();
    push_word(&mut body, "fn", site);
    push_word(&mut body, "from", site);
    push_group(&mut body, Delimiter::Parenthesis, parameter, site);
    push_mark(&mut body, '-', Spacing::Joint, site);
    push_mark(&mut body, '>', Spacing::Alone, site);
    push_word(&mut body, "Self", site);
    push_group(&mut body, Delimiter::Brace, literal, site);
    assert(stream_tokens(body) =~= from_fn_tokens(*source, listed_entries, site));

    let mut ts = empty_stream();
    push_word(&mut ts, "impl", site);
    push_impl_generics(&mut ts, generics);
    push_word(&mut ts, "From", site);
    push_mark(&mut ts, '<', Spacing::Alone, site);
    push_path(&mut ts, source);
    push_mark(&mut ts, '>', Spacing::Alone, site);
    push_word(&mut ts, "for", site);
    push_ident(&mut ts, name);
    push_type_generics(&mut ts, generics);
    push_where_clause(&mut ts, generics);
    push_group(&mut ts, Delimiter::Brace, body, site);
    assert(stream_tokens(ts) =~= impl_tokens(*name, *generics, *source, listed_entries, site));
    ts
}

} // verus!
