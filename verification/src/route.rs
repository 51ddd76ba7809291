//! Rate-limit route keys: the query string is dropped and the path is
//! normalised so that requests sharing a Discord rate-limit bucket share a key.

use vstd::prelude::*;

use crate::method::{method_name, HttpMethod};
use crate::text::{chars_of, push_char, same_text, views};

verus! {

/// `s` split at every occurrence of `sep`, as `str::split` does: the result
/// always has one more piece than `s` has separators, and pieces may be empty.
pub open spec fn split_on(s: Seq<char>, sep: char) -> Seq<Seq<char>>
    decreases s.len(),
{
    if s.len() == 0 {
        seq![Seq::<char>::empty()]
    } else {
        let prev = split_on(s.drop_last(), sep);
        if s.last() == sep {
            prev.push(Seq::<char>::empty())
        } else {
            prev.update(prev.len() - 1, prev.last().push(s.last()))
        }
    }
}

/// The piece that may follow `messages` in place of a message id: the
/// bulk-delete endpoint, a literal name kept as it is.
pub open spec fn kept_after_message(p: Seq<char>) -> bool {
    p == "bulk-delete"@
}

/// The normalised form of the piece at index `i` of the split path. A message
/// id (the piece directly after `messages`, unless it is `bulk-delete`) is a
/// minor parameter and becomes `:message_id`; every other piece, major ids
/// after `channels`, `guilds` and `webhooks` and literal names among them, is
/// kept as it is.
pub open spec fn normalized_piece(parts: Seq<Seq<char>>, i: int) -> Seq<char> {
    let p = parts[i];
    if i >= 1 && parts[i - 1] == "messages"@ && !kept_after_message(p) {
        ":message_id"@
    } else {
        p
    }
}

/// The normalised non-empty pieces among the first `n` pieces, in order.
pub open spec fn normalized_pieces(parts: Seq<Seq<char>>, n: nat) -> Seq<Seq<char>>
    decreases n,
{
    if n == 0 {
        Seq::empty()
    } else {
        let prev = normalized_pieces(parts, (n - 1) as nat);
        if parts[n - 1].len() == 0 {
            prev
        } else {
            prev.push(normalized_piece(parts, n - 1))
        }
    }
}

/// The pieces joined with `sep` between consecutive pieces.
pub open spec fn join_with(pieces: Seq<Seq<char>>, sep: Seq<char>) -> Seq<char>
    decreases pieces.len(),
{
    if pieces.len() == 0 {
        Seq::empty()
    } else if pieces.len() == 1 {
        pieces[0]
    } else {
        join_with(pieces.drop_last(), sep) + sep + pieces.last()
    }
}

/// The route key of a request: the method, a space, then `/` followed by the
/// normalised pieces of the path joined with `/`, with a trailing `/` kept.
pub open spec fn normalized_route(method: HttpMethod, path: Seq<char>) -> Seq<char> {
    let parts = split_on(path, '/');
    let body = join_with(normalized_pieces(parts, parts.len()), "/"@);
    let route = if path.len() > 0 && path.last() == '/' { body.push('/') } else { body };
    method_name(method) + " /"@ + route
}

/// The part of a URL before its first `?`, or the whole URL when it has none.
pub open spec fn before_query(s: Seq<char>) -> Seq<char>
    decreases s.len(),
{
    if s.len() == 0 {
        s
    } else if s[0] == '?' {
        Seq::empty()
    } else {
        seq![s[0]] + before_query(s.drop_first())
    }
}

/// The rate-limit route key of a request for `url`.
pub open spec fn route_key_of(method: HttpMethod, url: Seq<char>) -> Seq<char> {
    normalized_route(method, before_query(url))
}

proof fn lemma_split_nonempty(s: Seq<char>, sep: char)
    ensures
        split_on(s, sep).len() >= 1,
    decreases s.len(),
{
    if s.len() > 0 {
        lemma_split_nonempty(s.drop_last(), sep);
    }
}

proof fn lemma_before_query_prefix(s: Seq<char>, i: int)
    requires
        0 <= i <= s.len(),
        forall|j: int| 0 <= j < i ==> s[j] != '?',
    ensures
        before_query(s) == s.take(i) + before_query(s.skip(i)),
    decreases i,
{
    if i == 0 {
        assert(s.skip(0) =~= s);
        assert(s.take(0) + before_query(s) =~= before_query(s));
    } else {
        lemma_before_query_prefix(s, i - 1);
        let t = s.skip(i - 1);
        assert(t[0] == s[i - 1]);
        assert(t.drop_first() =~= s.skip(i));
        assert(s.take(i) =~= s.take(i - 1) + seq![s[i - 1]]);
        assert(s.take(i - 1) + (seq![s[i - 1]] + before_query(s.skip(i))) =~= s.take(i)
            + before_query(s.skip(i)));
    }
}

/// The URL without its query string (everything from the first `?` on).
pub fn path_without_query(url: &str) -> (p: String)
    ensures
        p@ == before_query(url@),
{
    let chars = chars_of(url);
    let mut p = String::new();
    let mut i: usize = 0;
    while i < chars.len()
        invariant
            chars@ == url@,
            i <= chars.len(),
            p@ == url@.take(i as int),
            forall|j: int| 0 <= j < i ==> url@[j] != '?',
        decreases chars.len() - i,
    {
        if chars[i] == '?' {
            proof {
                lemma_before_query_prefix(url@, i as int);
                assert(before_query(url@.skip(i as int)) =~= Seq::<char>::empty());
                assert(url@.take(i as int) + Seq::<char>::empty() =~= url@.take(i as int));
            }
            return p;
        }
        push_char(&mut p, chars[i]);
        assert(url@.take(i + 1) =~= url@.take(i as int).push(url@[i as int]));
        i = i + 1;
    }
    proof {
        lemma_before_query_prefix(url@, i as int);
        assert(url@.skip(i as int) =~= Seq::<char>::empty());
        assert(url@.take(i as int) =~= url@);
        assert(url@ + Seq::<char>::empty() =~= url@);
    }
    p
}

/// The path split at every `/`.
fn split_path(chars: &Vec<char>) -> (parts: Vec<String>)
    ensures
        views(parts@) == split_on(chars@, '/'),
{
    let mut parts: Vec<String> = Vec::new();
    let mut cur = String::new();
    for i in 0..chars.len()
        invariant
            views(parts@).push(cur@) == split_on(chars@.take(i as int), '/'),
    {
        let c = chars[i];
        let ghost before = chars@.take(i as int);
        assert(chars@.take(i + 1).drop_last() =~= before);
        assert(chars@.take(i + 1).last() == c);
        proof {
            lemma_split_nonempty(before, '/');
        }
        if c == '/' {
            let ghost old_parts = parts@;
            parts.push(cur);
            cur = String::new();
            assert(views(parts@) =~= views(old_parts).push(views(parts@).last()));
            assert(views(parts@).push(cur@) =~= split_on(chars@.take(i + 1), '/'));
        } else {
            let ghost old_cur = cur@;
            push_char(&mut cur, c);
            assert(views(parts@).push(cur@) =~= split_on(chars@.take(i + 1), '/'));
        }
    }
    let ghost old_parts = parts@;
    parts.push(cur);
    assert(chars@.take(chars@.len() as int) =~= chars@);
    assert(views(parts@) =~= views(old_parts).push(views(parts@).last()));
    parts
}

/// Whether `s` holds exactly the characters of `lit`.
fn is_text(s: &String, lit: &str) -> (r: bool)
    ensures
        r == (s@ == lit@),
{
    same_text(s.as_str(), lit)
}

fn is_kept_after_message(p: &String) -> (r: bool)
    ensures
        r == kept_after_message(p@),
{
    is_text(p, "bulk-delete")
}

/// The normalised form of the piece at index `i`.
fn normalize_piece(parts: &Vec<String>, i: usize) -> (r: String)
    requires
        i < parts.len(),
    ensures
        r@ == normalized_piece(views(parts@), i as int),
{
    let p = &parts[i];
    if i >= 1 && is_text(&parts[i - 1], "messages") && !is_kept_after_message(p) {
        ":message_id".to_owned()
    } else {
        p.clone()
    }
}

/// The pieces joined with `sep`.
fn join_pieces(pieces: &Vec<String>, sep: &str) -> (r: String)
    ensures
        r@ == join_with(views(pieces@), sep@),
{
    let mut r = String::new();
    for i in 0..pieces.len()
        invariant
            r@ == join_with(views(pieces@).take(i as int), sep@),
    {
        let ghost prefix = views(pieces@).take(i + 1);
        assert(prefix.drop_last() =~= views(pieces@).take(i as int));
        if i != 0 {
            r.append(sep);
        } else {
            assert(views(pieces@).take(0) =~= Seq::<Seq<char>>::empty());
        }
        r.append(pieces[i].as_str());
    }
    assert(views(pieces@).take(pieces@.len() as int) =~= views(pieces@));
    r
}

/// Normalises a Discord API route so that requests sharing a rate-limit
/// bucket share a key: the path is split at `/` and empty pieces are
/// dropped; major ids (after `channels`, `guilds`, `webhooks`) and literal
/// names are kept, a message id (the piece directly after `messages`, other
/// than `bulk-delete`) becomes `:message_id`, and a trailing `/` is
/// preserved. The key reads `"<METHOD> /<pieces>"`.
pub fn normalize_route(method: HttpMethod, path: &str) -> (r: String)
    ensures
        r@ == normalized_route(method, path@),
{
    let chars = chars_of(path);
    let parts = split_path(&chars);
    let ghost pv = views(parts@);
    let mut normalized: Vec<String> = Vec::new();
    for i in 0..parts.len()
        invariant
            pv == views(parts@),
            pv == split_on(path@, '/'),
            views(normalized@) == normalized_pieces(pv, i as nat),
    {
        if !parts[i].as_str().is_empty() {
            let ghost before = normalized@;
            let piece = normalize_piece(&parts, i);
            normalized.push(piece);
            assert(views(normalized@) =~= views(before).push(piece@));
        }
    }
    let body = join_pieces(&normalized, "/");
    let trailing = chars.len() > 0 && chars[chars.len() - 1] == '/';
    let mut r = method.as_str().to_owned();
    r.append(" /");
    r.append(body.as_str());
    if trailing {
        push_char(&mut r, '/');
        assert(r@ =~= method_name(method) + " /"@ + body@.push('/'));
    } else {
        assert(r@ =~= method_name(method) + " /"@ + body@);
    }
    r
}

/// The rate-limit route key of a request: its URL without the query string,
/// normalised as [`normalize_route`] does.
pub fn route_key(method: HttpMethod, url: &str) -> (r: String)
    ensures
        r@ == route_key_of(method, url@),
{
    let path = path_without_query(url);
    normalize_route(method, path.as_str())
}

} // verus!
