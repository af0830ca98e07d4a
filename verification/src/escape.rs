use vstd::prelude::*;
use vstd::string::StringExecFns;

verus! {

/// Why an attempt to read the `%= expr %` escaping sugar did not succeed.
/// None of these is fatal: the caller falls back to treating the whole
/// block as an ordinary expression.
#[derive(Clone, Copy, Debug, PartialEq, Eq, Structural)]
pub enum EscapeError {
    /// The content does not begin with the `%` `=` prefix.
    Mismatch,
    /// The prefix matched but the content ends before a closing `%`.
    UnexpectedEnd,
    /// A closing `%` was found but tokens follow it.
    TrailingTokens,
}

/// Whether the token sequence begins with the `%` `=` prefix of the
/// escaping sugar.
pub open spec fn has_escape_prefix(toks: Seq<String>) -> bool {
    toks.len() >= 2 && toks[0]@ == "%"@ && toks[1]@ == "="@
}

/// Whether position `j` can serve as the closing `%` of the sugar: it must
/// come after at least one wrapped token (the token right after the prefix
/// is consumed unconditionally, so the earliest closing position is 3).
pub open spec fn closes_escape_at(toks: Seq<String>, j: int) -> bool {
    3 <= j < toks.len() && toks[j]@ == "%"@
}

/// Whether the whole token sequence is the escaping sugar: the `%` `=`
/// prefix, one or more wrapped tokens, and a closing `%` as the very last
/// token, with no `%` ending the wrapped run earlier.
pub open spec fn escape_matches(toks: Seq<String>) -> bool {
    &&& has_escape_prefix(toks)
    &&& toks.len() >= 4
    &&& toks[toks.len() - 1]@ == "%"@
    &&& forall|j: int| 3 <= j < toks.len() - 1 ==> toks[j]@ != "%"@
}

/// The wrapped tokens of a matching sequence: everything strictly between
/// the `%` `=` prefix and the closing `%`.
pub open spec fn escape_inner(toks: Seq<String>) -> Seq<String> {
    toks.subrange(2, toks.len() - 1)
}

/// Attempts to read block content as the `%= expr %` escaping sugar.
///
/// On success the wrapped tokens are returned; every failure reports why,
/// and the caller treats the content as an ordinary expression instead, so
/// that expressions merely beginning with `%` are never misclassified. The
/// input is never changed, so a failed attempt has no effect at all.
pub fn parse_escape_syntax(tokens: &Vec<String>) -> (r: Result<Vec<String>, EscapeError>)
    ensures
        r is Ok <==> escape_matches(tokens@),
        r is Ok ==> r->Ok_0@ == escape_inner(tokens@),
        r is Err && r->Err_0 == EscapeError::Mismatch <==> !has_escape_prefix(tokens@),
        r is Err && r->Err_0 == EscapeError::UnexpectedEnd <==> has_escape_prefix(tokens@)
            && (forall|j: int| !closes_escape_at(tokens@, j)),
        r is Err && r->Err_0 == EscapeError::TrailingTokens <==> has_escape_prefix(tokens@) && (
        exists|j: int| closes_escape_at(tokens@, j)) && !escape_matches(tokens@),
{
    if tokens.len() < 2 {
        return Err(EscapeError::Mismatch);
    }
    if !(tokens[0] == String::from_str("%")) {
        return Err(EscapeError::Mismatch);
    }
    if !(tokens[1] == String::from_str("=")) {
        return Err(EscapeError::Mismatch);
    }
    let mut inner: Vec<String> = Vec::new();
    let mut i: usize = 2;
    loop
        invariant
            has_escape_prefix(tokens@),
            2 <= i <= tokens@.len(),
            inner@ == tokens@.subrange(2, i as int),
            forall|j: int| 3 <= j <= i ==> !closes_escape_at(tokens@, j),
        decreases tokens@.len() - i,
    {
        if i >= tokens.len() {
            proof {
                assert forall|j: int| !closes_escape_at(tokens@, j) by {
                    if 3 <= j && j < tokens@.len() {
                        assert(!closes_escape_at(tokens@, j));
                    }
                }
                assert(!closes_escape_at(tokens@, tokens@.len() - 1));
            }
            return Err(EscapeError::UnexpectedEnd);
        }
        inner.push(tokens[i].clone());
        proof {
            assert(inner@ =~= tokens@.subrange(2, i + 1));
        }
        i = i + 1;
        if i < tokens.len() && tokens[i] == String::from_str("%") {
            let ghost c: int = i as int;
            assert(closes_escape_at(tokens@, c));
            i = i + 1;
            if i < tokens.len() {
                proof {
                    assert(tokens@[c]@ == "%"@);
                    assert(c < tokens@.len() - 1);
                    assert(!escape_matches(tokens@));
                }
                return Err(EscapeError::TrailingTokens);
            }
            proof {
                assert(c == tokens@.len() - 1);
                assert forall|j: int| 3 <= j < tokens@.len() - 1 implies tokens@[j]@ != "%"@ by {
                    assert(!closes_escape_at(tokens@, j));
                }
                assert(escape_matches(tokens@));
                assert(inner@ == escape_inner(tokens@));
            }
            return Ok(inner);
        }
    }
}

/// The text of a token sequence: the tokens separated by single spaces.
pub open spec fn spec_join(toks: Seq<String>) -> Seq<char>
    decreases toks.len(),
{
    if toks.len() == 0 {
        Seq::<char>::empty()
    } else if toks.len() == 1 {
        toks[0]@
    } else {
        toks[0]@ + " "@ + spec_join(toks.drop_first())
    }
}

/// The text of the escaping call: the wrapped expression handed as the
/// sole argument to the HTML-text-encoding function.
pub open spec fn escape_call_text(inner: Seq<String>) -> Seq<char> {
    "yate::html_escape::encode_text("@ + spec_join(inner) + ")"@
}

/// Appending a token to a non-empty sequence appends a space and that
/// token to the joined text.
pub proof fn lemma_spec_join_snoc(toks: Seq<String>, tok: String)
    requires
        toks.len() >= 1,
    ensures
        spec_join(toks.push(tok)) == spec_join(toks) + " "@ + tok@,
    decreases toks.len(),
{
    let s = toks.push(tok);
    assert(s[0] == toks[0]);
    if toks.len() == 1 {
        assert(s.drop_first() =~= seq![tok]);
        assert(spec_join(s.drop_first()) == tok@);
        assert(spec_join(s) == toks[0]@ + " "@ + tok@);
    } else {
        assert(s.drop_first() =~= toks.drop_first().push(tok));
        lemma_spec_join_snoc(toks.drop_first(), tok);
        let rest = spec_join(toks.drop_first());
        assert(spec_join(s) == toks[0]@ + " "@ + (rest + " "@ + tok@));
        assert(toks[0]@ + " "@ + (rest + " "@ + tok@) =~= (toks[0]@ + " "@ + rest) + " "@ + tok@);
    }
}

/// Joins tokens into one string, separated by single spaces.
pub fn join_tokens(tokens: &Vec<String>) -> (r: String)
    ensures
        r@ == spec_join(tokens@),
{
    let mut out = String::new();
    let mut i: usize = 0;
    while i < tokens.len()
        invariant
            i <= tokens.len(),
            out@ == spec_join(tokens@.take(i as int)),
        decreases tokens@.len() - i,
    {
        if i > 0 {
            out.append(" ");
        }
        out.append(tokens[i].as_str());
        proof {
            assert(tokens@.take(i + 1) =~= tokens@.take(i as int).push(tokens@[i as int]));
            if i > 0 {
                lemma_spec_join_snoc(tokens@.take(i as int), tokens@[i as int]);
            } else {
                assert(out@ =~= tokens@[0]@);
                assert(tokens@.take(1)[0] == tokens@[0]);
            }
        }
        i = i + 1;
    }
    proof {
        assert(tokens@.take(tokens@.len() as int) =~= tokens@);
    }
    out
}

/// The transform a front end applies to raw block content before building
/// the tree: content that reads as `%= expr %` becomes the escaping call
/// on `expr`; any other content is joined verbatim, so a failed attempt at
/// the sugar has no effect on the expression.
pub fn transform_block(tokens: &Vec<String>) -> (r: String)
    ensures
        escape_matches(tokens@) ==> r@ == escape_call_text(escape_inner(tokens@)),
        !escape_matches(tokens@) ==> r@ == spec_join(tokens@),
{
    match parse_escape_syntax(tokens) {
        Ok(inner) => {
            let mut out = String::from_str("yate::html_escape::encode_text(");
            let joined = join_tokens(&inner);
            out.append(joined.as_str());
            out.append(")");
            out
        },
        Err(_) => join_tokens(tokens),
    }
}

} // verus!
