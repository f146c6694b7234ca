use vstd::prelude::*;
use crate::model::{Annotation, AnnotationArgs, AttrToken, FieldDeclaration, GenError};

verus! {

pub open spec fn is_ident_start(c: char) -> bool {
    ('a' <= c && c <= 'z') || ('A' <= c && c <= 'Z') || c == '_'
}

pub open spec fn is_ident_continue(c: char) -> bool {
    is_ident_start(c) || ('0' <= c && c <= '9')
}

/// An ASCII identifier: a letter or `_`, then letters, digits or `_`; a lone
/// `_` is not one.
pub open spec fn is_identifier(s: Seq<char>) -> bool {
    &&& s.len() > 0
    &&& is_ident_start(s[0])
    &&& forall|i: int| 1 <= i < s.len() ==> is_ident_continue(#[trigger] s[i])
    &&& s != seq!['_']
}

/// The value of a string literal written without escapes: the text between
/// the two quotes.
pub open spec fn string_literal_value(text: Seq<char>) -> Option<Seq<char>> {
    if text.len() >= 2 && text[0] == '"' && text[text.len() - 1] == '"' && (forall|i: int|
        1 <= i < text.len() - 1 ==> #[trigger] text[i] != '"' && text[i] != '\\') {
        Some(text.subrange(1, text.len() - 1))
    } else {
        None
    }
}

/// The entries `each = "<name>"` of a `builder(...)` list from token `i` on,
/// separated by commas, a trailing comma allowed; a later entry overrides an
/// earlier one, held in `acc`.
pub open spec fn each_entries(
    toks: Seq<AttrToken>,
    i: int,
    field: String,
    acc: Option<Seq<char>>,
) -> Result<Option<Seq<char>>, GenError>
    decreases toks.len() - i,
{
    if i < 0 || i >= toks.len() {
        Ok(acc)
    } else {
        match toks[i] {
            AttrToken::Ident(k) => {
                if k@ != "each"@ {
                    Err(GenError::UnknownBuilderKey { field: field, key: k })
                } else if i + 2 < toks.len() && toks[i + 1] == AttrToken::Punct('=')
                    && toks[i + 2] is Literal && string_literal_value(toks[i + 2]->Literal_0@) is Some {
                    let v = string_literal_value(toks[i + 2]->Literal_0@)->Some_0;
                    if !is_identifier(v) {
                        Err(GenError::InvalidEachName { field: field })
                    } else if i + 3 >= toks.len() {
                        Ok(Some(v))
                    } else if toks[i + 3] == AttrToken::Punct(',') {
                        each_entries(toks, i + 4, field, Some(v))
                    } else {
                        Err(GenError::MalformedBuilder { field: field })
                    }
                } else {
                    Err(GenError::MalformedBuilder { field: field })
                }
            },
            _ => Err(GenError::MalformedBuilder { field: field }),
        }
    }
}

/// The `each` name that the `builder` annotations of a field give, from
/// annotation `j` on; a later annotation overrides an earlier one.
pub open spec fn each_over(
    anns: Seq<Annotation>,
    j: int,
    field: String,
    acc: Option<Seq<char>>,
) -> Result<Option<Seq<char>>, GenError>
    decreases anns.len() - j,
{
    if j < 0 || j >= anns.len() {
        Ok(acc)
    } else if anns[j].name@ == "builder"@ {
        match anns[j].args {
            AnnotationArgs::List(toks) => match each_entries(toks@, 0, field, None) {
                Ok(Some(v)) => each_over(anns, j + 1, field, Some(v)),
                Ok(None) => each_over(anns, j + 1, field, acc),
                Err(e) => Err(e),
            },
            _ => Err(GenError::MalformedBuilder { field: field }),
        }
    } else {
        each_over(anns, j + 1, field, acc)
    }
}

/// The `each` directive of a field, if any.
pub open spec fn builder_each(f: FieldDeclaration) -> Result<Option<Seq<char>>, GenError> {
    each_over(f.annotations@, 0, f.name, None)
}

/// The format pattern that the `debug` annotations of a field give, from
/// annotation `j` on; a second one is an error.
pub open spec fn debug_over(anns: Seq<Annotation>, j: int, field: String, acc: Option<String>) -> Result<
    Option<String>,
    GenError,
>
    decreases anns.len() - j,
{
    if j < 0 || j >= anns.len() {
        Ok(acc)
    } else if anns[j].name@ == "debug"@ {
        match anns[j].args {
            AnnotationArgs::Value(text) => if acc is Some {
                Err(GenError::DuplicateDebug { field: field })
            } else {
                debug_over(anns, j + 1, field, Some(text))
            },
            _ => Err(GenError::MalformedDebug { field: field }),
        }
    } else {
        debug_over(anns, j + 1, field, acc)
    }
}

/// The format pattern of a field, if any.
pub open spec fn debug_pattern(f: FieldDeclaration) -> Result<Option<String>, GenError> {
    debug_over(f.annotations@, 0, f.name, None)
}

pub open spec fn opt_view(o: Option<String>) -> Option<Seq<char>> {
    match o {
        Some(s) => Some(s@),
        None => None,
    }
}

pub open spec fn each_view(r: Result<Option<String>, GenError>) -> Result<Option<Seq<char>>, GenError> {
    match r {
        Ok(o) => Ok(opt_view(o)),
        Err(e) => Err(e),
    }
}

/// Whether a string's characters are those of `lit`.
pub fn text_is(s: &String, lit: &str) -> (r: bool)
    ensures
        r == (s@ == lit@),
{
    let n = s.as_str().unicode_len();
    if n != lit.unicode_len() {
        return false;
    }
    let mut i: usize = 0;
    while i < n
        invariant
            n == s@.len(),
            n == lit@.len(),
            i <= n,
            forall|k: int| 0 <= k < i ==> s@[k] == lit@[k],
        decreases n - i,
    {
        if s.as_str().get_char(i) != lit.get_char(i) {
            return false;
        }
        i = i + 1;
    }
    assert(s@ =~= lit@);
    true
}

/// Whether `s` is an identifier.
pub fn check_identifier(s: &str) -> (r: bool)
    ensures
        r == is_identifier(s@),
{
    let n = s.unicode_len();
    if n == 0 {
        return false;
    }
    let c0 = s.get_char(0);
    if !(('a' <= c0 && c0 <= 'z') || ('A' <= c0 && c0 <= 'Z') || c0 == '_') {
        return false;
    }
    if n == 1 && c0 == '_' {
        assert(s@ =~= seq!['_']);
        return false;
    }
    let mut i: usize = 1;
    while i < n
        invariant
            n == s@.len(),
            1 <= i <= n,
            forall|k: int| 1 <= k < i ==> is_ident_continue(#[trigger] s@[k]),
        decreases n - i,
    {
        let c = s.get_char(i);
        if !(('a' <= c && c <= 'z') || ('A' <= c && c <= 'Z') || c == '_' || ('0' <= c && c
            <= '9')) {
            return false;
        }
        i = i + 1;
    }
    assert(n == 1 ==> s@ != seq!['_']) by {
        if n == 1 && s@ == seq!['_'] {
            assert(s@[0] == '_');
        }
    }
    true
}

/// The value of a string literal written without escapes.
pub fn literal_value(text: &String) -> (r: Option<String>)
    ensures
        opt_view(r) == string_literal_value(text@),
{
    let t = text.as_str();
    let n = t.unicode_len();
    if n < 2 || t.get_char(0) != '"' || t.get_char(n - 1) != '"' {
        return None;
    }
    let mut i: usize = 1;
    while i < n - 1
        invariant
            n == t@.len(),
            t@ == text@,
            n >= 2,
            1 <= i <= n - 1,
            forall|k: int| 1 <= k < i ==> #[trigger] t@[k] != '"' && t@[k] != '\\',
        decreases n - i,
    {
        let c = t.get_char(i);
        if c == '"' || c == '\\' {
            return None;
        }
        i = i + 1;
    }
    Some(String::from_str(t.substring_char(1, n - 1)))
}

/// Reads the entries of a `builder(...)` list: `each = "<identifier>"`,
/// separated by commas.
pub fn parse_each_entries(toks: &Vec<AttrToken>, field: &String) -> (r: Result<Option<String>, GenError>)
    ensures
        each_view(r) == each_entries(toks@, 0, *field, None),
{
    let mut acc: Option<String> = None;
    let mut i: usize = 0;
    while i < toks.len()
        invariant
            each_entries(toks@, 0, *field, None) == each_entries(toks@, i as int, *field, opt_view(acc)),
        decreases toks.len() - i,
    {
        match &toks[i] {
            AttrToken::Ident(k) => {
                if !text_is(k, "each") {
                    return Err(GenError::UnknownBuilderKey { field: field.clone(), key: k.clone() });
                }
                if toks.len() - i <= 2 {
                    return Err(GenError::MalformedBuilder { field: field.clone() });
                }
                let eq_ok = match &toks[i + 1] {
                    AttrToken::Punct(c) => *c == '=',
                    _ => false,
                };
                if !eq_ok {
                    return Err(GenError::MalformedBuilder { field: field.clone() });
                }
                let v = match &toks[i + 2] {
                    AttrToken::Literal(text) => literal_value(text),
                    _ => None,
                };
                match v {
                    None => {
                        return Err(GenError::MalformedBuilder { field: field.clone() });
                    },
                    Some(v) => {
                        if !check_identifier(v.as_str()) {
                            return Err(GenError::InvalidEachName { field: field.clone() });
                        }
                        if toks.len() - i == 3 {
                            return Ok(Some(v));
                        }
                        let comma_ok = match &toks[i + 3] {
                            AttrToken::Punct(c) => *c == ',',
                            _ => false,
                        };
                        if !comma_ok {
                            return Err(GenError::MalformedBuilder { field: field.clone() });
                        }
                        acc = Some(v);
                        i = i + 4;
                    },
                }
            },
            _ => {
                return Err(GenError::MalformedBuilder { field: field.clone() });
            },
        }
    }
    Ok(acc)
}

/// The `each` directive of a field's `builder` annotations, if any.
pub fn each_directive(f: &FieldDeclaration) -> (r: Result<Option<String>, GenError>)
    ensures
        each_view(r) == builder_each(*f),
{
    let anns = &f.annotations;
    let mut acc: Option<String> = None;
    let mut j: usize = 0;
    while j < anns.len()
        invariant
            anns == &f.annotations,
            builder_each(*f) == each_over(anns@, j as int, f.name, opt_view(acc)),
        decreases anns.len() - j,
    {
        let a = &anns[j];
        if text_is(&a.name, "builder") {
            match &a.args {
                AnnotationArgs::List(toks) => match parse_each_entries(toks, &f.name) {
                    Ok(Some(v)) => {
                        acc = Some(v);
                    },
                    Ok(None) => {},
                    Err(e) => {
                        return Err(e);
                    },
                },
                _ => {
                    return Err(GenError::MalformedBuilder { field: f.name.clone() });
                },
            }
        }
        j = j + 1;
    }
    Ok(acc)
}

/// The format pattern of a field's `debug` annotation, if any; two such
/// annotations, or one not of the form `debug = ...`, are an error.
pub fn debug_directive(f: &FieldDeclaration) -> (r: Result<Option<String>, GenError>)
    ensures
        r == debug_pattern(*f),
{
    let anns = &f.annotations;
    let mut acc: Option<String> = None;
    let mut j: usize = 0;
    while j < anns.len()
        invariant
            anns == &f.annotations,
            debug_pattern(*f) == debug_over(anns@, j as int, f.name, acc),
        decreases anns.len() - j,
    {
        let a = &anns[j];
        if text_is(&a.name, "debug") {
            match &a.args {
                AnnotationArgs::Value(text) => {
                    if acc.is_some() {
                        return Err(GenError::DuplicateDebug { field: f.name.clone() });
                    }
                    acc = Some(text.clone());
                },
                _ => {
                    return Err(GenError::MalformedDebug { field: f.name.clone() });
                },
            }
        }
        j = j + 1;
    }
    Ok(acc)
}

} // verus!
