//! Properties of route normalisation: the shape of a route key, how its
//! pieces relate to the path's, and that a normalised route is stable.

use vstd::prelude::*;

use crate::laws::{lemma_pieces_prefix, lemma_split_len, lemma_split_trailing};
use crate::method::{method_name, HttpMethod};
use crate::route::{
    join_with, kept_after_message, normalized_piece, normalized_pieces, normalized_route, split_on,
};

verus! {

/// The non-empty pieces of `ps`, in order.
pub open spec fn nonempty(ps: Seq<Seq<char>>) -> Seq<Seq<char>>
    decreases ps.len(),
{
    if ps.len() == 0 {
        ps
    } else {
        let prev = nonempty(ps.drop_last());
        if ps.last().len() == 0 {
            prev
        } else {
            prev.push(ps.last())
        }
    }
}

/// The non-empty `/`-separated pieces of a text.
pub open spec fn segments(s: Seq<char>) -> Seq<Seq<char>> {
    nonempty(split_on(s, '/'))
}

/// The placeholder normalisation puts in place of a message id.
pub open spec fn is_placeholder(p: Seq<char>) -> bool {
    p == ":message_id"@
}

/// Whether no character of `p` is `c`.
pub open spec fn lacks(p: Seq<char>, c: char) -> bool {
    forall|j: int| 0 <= j < p.len() ==> p[j] != c
}

/// Whether `s` never has two `/` in a row.
pub open spec fn no_double_slash(s: Seq<char>) -> bool {
    forall|j: int| 0 <= j < s.len() - 1 ==> !(s[j] == '/' && #[trigger] s[j + 1] == '/')
}

/// The part of a route key after the method and the space: `/`, the
/// normalised pieces joined with `/`, and the path's trailing `/`.
pub open spec fn route_path(path: Seq<char>) -> Seq<char> {
    let parts = split_on(path, '/');
    let body = join_with(normalized_pieces(parts, parts.len()), "/"@);
    "/"@ + if path.len() > 0 && path.last() == '/' { body.push('/') } else { body }
}

proof fn lemma_split_lacks(s: Seq<char>, sep: char)
    ensures
        forall|j: int| 0 <= j < split_on(s, sep).len() ==> lacks(#[trigger] split_on(s, sep)[j], sep),
    decreases s.len(),
{
    lemma_split_len(s, sep);
    if s.len() > 0 {
        lemma_split_lacks(s.drop_last(), sep);
        lemma_split_len(s.drop_last(), sep);
        let prev = split_on(s.drop_last(), sep);
        let cur = split_on(s, sep);
        assert forall|j: int| 0 <= j < cur.len() implies lacks(#[trigger] cur[j], sep) by {
            if j < prev.len() && !(s.last() != sep && j == prev.len() - 1) {
                assert(cur[j] == prev[j]);
            } else if s.last() != sep {
                assert(lacks(prev[prev.len() - 1], sep));
                assert forall|t: int| 0 <= t < cur[j].len() implies cur[j][t] != sep by {
                    if t < cur[j].len() - 1 {
                        assert(cur[j][t] == prev[prev.len() - 1][t]);
                    }
                }
            }
        }
    }
}

proof fn lemma_split_concat(a: Seq<char>, b: Seq<char>, sep: char)
    ensures
        split_on(a + seq![sep] + b, sep) == split_on(a, sep) + split_on(b, sep),
    decreases b.len(),
{
    let s = a + seq![sep] + b;
    if b.len() == 0 {
        assert(s.drop_last() =~= a);
        assert(split_on(a, sep).push(Seq::<char>::empty()) =~= split_on(a, sep) + split_on(b, sep));
    } else {
        lemma_split_concat(a, b.drop_last(), sep);
        assert(s.drop_last() =~= a + seq![sep] + b.drop_last());
        assert(s.last() == b.last());
        lemma_split_len(b.drop_last(), sep);
        let pa = split_on(a, sep);
        let pb = split_on(b.drop_last(), sep);
        if b.last() == sep {
            assert((pa + pb).push(Seq::<char>::empty()) =~= pa + pb.push(Seq::<char>::empty()));
        } else {
            let whole = pa + pb;
            assert(whole.update(whole.len() - 1, whole.last().push(b.last())) =~= pa + pb.update(
                pb.len() - 1,
                pb.last().push(b.last()),
            ));
        }
    }
}

proof fn lemma_split_plain(s: Seq<char>, sep: char)
    requires
        lacks(s, sep),
    ensures
        split_on(s, sep) == seq![s],
    decreases s.len(),
{
    if s.len() > 0 {
        assert(lacks(s.drop_last(), sep)) by {
            assert forall|j: int| 0 <= j < s.drop_last().len() implies s.drop_last()[j] != sep by {
                assert(s.drop_last()[j] == s[j]);
            }
        }
        lemma_split_plain(s.drop_last(), sep);
        assert(s[s.len() - 1] != sep);
        assert(s.drop_last().push(s.last()) =~= s);
        assert(seq![s.drop_last()].update(0, s.drop_last().push(s.last())) =~= seq![s]);
    } else {
        assert(s =~= Seq::<char>::empty());
    }
}

proof fn lemma_slash_literals()
    ensures
        "/"@ == seq!['/'],
        " /"@ == " "@ + "/"@,
{
    reveal_strlit("/");
    reveal_strlit(" /");
    reveal_strlit(" ");
    assert(" /"@ =~= " "@ + "/"@);
}

proof fn lemma_split_join(ps: Seq<Seq<char>>)
    requires
        ps.len() >= 1,
        forall|k: int| 0 <= k < ps.len() ==> lacks(#[trigger] ps[k], '/'),
    ensures
        split_on(join_with(ps, "/"@), '/') == ps,
    decreases ps.len(),
{
    lemma_slash_literals();
    if ps.len() == 1 {
        lemma_split_plain(ps[0], '/');
        assert(seq![ps[0]] =~= ps);
    } else {
        let init = ps.drop_last();
        assert forall|k: int| 0 <= k < init.len() implies lacks(#[trigger] init[k], '/') by {
            assert(init[k] == ps[k]);
        }
        lemma_split_join(init);
        lemma_split_concat(join_with(init, "/"@), ps.last(), '/');
        assert(join_with(ps, "/"@) == join_with(init, "/"@) + seq!['/'] + ps.last());
        assert(lacks(ps[ps.len() - 1], '/'));
        lemma_split_plain(ps.last(), '/');
        assert(init + seq![ps.last()] =~= ps);
    }
}

/// The normalised form of every piece of a sequence of pieces.
pub open spec fn cnorm(ps: Seq<Seq<char>>) -> Seq<Seq<char>> {
    Seq::new(ps.len(), |k: int| normalized_piece(ps, k))
}

proof fn lemma_shift(parts: Seq<Seq<char>>, n: nat)
    requires
        n <= parts.len(),
    ensures
        normalized_pieces(seq![Seq::<char>::empty()] + parts, n + 1) == normalized_pieces(parts, n),
    decreases n,
{
    let a = seq![Seq::<char>::empty()] + parts;
    if n == 0 {
        assert(a[0].len() == 0);
        assert(normalized_pieces(a, 0) == Seq::<Seq<char>>::empty());
    } else {
        lemma_shift(parts, (n - 1) as nat);
        let j = n - 1;
        assert(a[j + 1] == parts[j]);
        if j >= 1 {
            assert(a[j] == parts[j - 1]);
        }
        if j == 0 {
            assert(a[0].len() == 0);
            reveal_strlit("messages");
        }
        assert(normalized_piece(a, j + 1) == normalized_piece(parts, j));
    }
}

proof fn lemma_drop_trailing_empty(parts: Seq<Seq<char>>)
    requires
        parts.len() >= 1,
        parts.last().len() == 0,
    ensures
        normalized_pieces(parts, parts.len()) == normalized_pieces(
            parts.drop_last(),
            parts.drop_last().len(),
        ),
{
    let n = parts.drop_last().len();
    assert forall|j: int| 0 <= j < n implies #[trigger] parts[j] == parts.drop_last()[j] by {}
    lemma_pieces_prefix(parts, parts.drop_last(), n);
}

proof fn lemma_all_nonempty(ps: Seq<Seq<char>>, m: nat)
    requires
        m <= ps.len(),
        forall|k: int| 0 <= k < ps.len() ==> (#[trigger] ps[k]).len() > 0,
    ensures
        normalized_pieces(ps, m) == cnorm(ps).take(m as int),
    decreases m,
{
    if m > 0 {
        lemma_all_nonempty(ps, (m - 1) as nat);
        assert(ps[m - 1].len() > 0);
        assert(cnorm(ps).take(m as int) =~= cnorm(ps).take(m - 1).push(normalized_piece(ps, m - 1)));
    } else {
        assert(cnorm(ps).take(0) =~= Seq::<Seq<char>>::empty());
    }
}

proof fn lemma_placeholder_shape()
    ensures
        forall|p: Seq<char>| #[trigger] is_placeholder(p) ==> p.len() > 0 && p[0] == ':' && lacks(p, '/'),
{
    reveal_strlit(":message_id");
}

/// Each normalised piece is the piece itself or a placeholder.
proof fn lemma_piece_or_placeholder(parts: Seq<Seq<char>>, j: int)
    requires
        0 <= j < parts.len(),
    ensures
        normalized_piece(parts, j) == parts[j] || is_placeholder(normalized_piece(parts, j)),
{
}

/// The normalised pieces among the first `n` pieces correspond one to one to
/// the non-empty pieces: each is that piece or a placeholder.
proof fn lemma_pieces_correspond(parts: Seq<Seq<char>>, n: nat)
    requires
        n <= parts.len(),
    ensures
        normalized_pieces(parts, n).len() == nonempty(parts.take(n as int)).len(),
        forall|k: int|
            0 <= k < normalized_pieces(parts, n).len() ==> #[trigger] normalized_pieces(parts, n)[k]
                == nonempty(parts.take(n as int))[k] || is_placeholder(normalized_pieces(parts, n)[k]),
        forall|k: int|
            0 <= k < normalized_pieces(parts, n).len() ==> (#[trigger] normalized_pieces(parts, n)[k]).len()
                > 0,
    decreases n,
{
    lemma_placeholder_shape();
    if n > 0 {
        lemma_pieces_correspond(parts, (n - 1) as nat);
        assert(parts.take(n as int).drop_last() =~= parts.take(n - 1));
        assert(parts.take(n as int).last() == parts[n - 1]);
        lemma_piece_or_placeholder(parts, n - 1);
    } else {
        assert(parts.take(0) =~= Seq::<Seq<char>>::empty());
    }
}

proof fn lemma_placeholder_kept_nowhere()
    ensures
        forall|p: Seq<char>|
            #[trigger] is_placeholder(p) ==> p != "messages"@ && !kept_after_message(p),
{
    lemma_placeholder_shape();
    reveal_strlit("messages");
    reveal_strlit("bulk-delete");
}

/// Normalising already normalised pieces changes nothing.
proof fn lemma_cnorm_stable(ps: Seq<Seq<char>>)
    ensures
        cnorm(cnorm(ps)) == cnorm(ps),
{
    let c = cnorm(ps);
    lemma_placeholder_kept_nowhere();
    assert forall|k: int| 0 <= k < c.len() implies #[trigger] normalized_piece(c, k) == c[k] by {
        lemma_piece_or_placeholder(ps, k);
        if k >= 1 {
            lemma_piece_or_placeholder(ps, k - 1);
            assert(c[k - 1] == normalized_piece(ps, k - 1));
            if c[k - 1] == "messages"@ {
                assert(!is_placeholder(c[k - 1]));
                assert(c[k - 1] == ps[k - 1]);
            }
        }
    }
    assert(cnorm(c) =~= c);
}

proof fn lemma_nonempty_all(ps: Seq<Seq<char>>)
    requires
        forall|k: int| 0 <= k < ps.len() ==> (#[trigger] ps[k]).len() > 0,
    ensures
        nonempty(ps) == ps,
    decreases ps.len(),
{
    if ps.len() > 0 {
        let init = ps.drop_last();
        assert forall|k: int| 0 <= k < init.len() implies (#[trigger] init[k]).len() > 0 by {
            assert(init[k] == ps[k]);
        }
        lemma_nonempty_all(init);
        assert(ps[ps.len() - 1].len() > 0);
        assert(init.push(ps.last()) =~= ps);
    }
}

proof fn lemma_nonempty_concat(a: Seq<Seq<char>>, b: Seq<Seq<char>>)
    ensures
        nonempty(a + b) == nonempty(a) + nonempty(b),
    decreases b.len(),
{
    if b.len() == 0 {
        assert(a + b =~= a);
        assert(nonempty(a) + nonempty(b) =~= nonempty(a));
    } else {
        lemma_nonempty_concat(a, b.drop_last());
        assert((a + b).drop_last() =~= a + b.drop_last());
        assert((a + b).last() == b.last());
        if b.last().len() > 0 {
            assert((nonempty(a) + nonempty(b.drop_last())).push(b.last()) =~= nonempty(a) + nonempty(
                b.drop_last(),
            ).push(b.last()));
        }
    }
}

proof fn lemma_nonempty_blank()
    ensures
        nonempty(seq![Seq::<char>::empty()]) == Seq::<Seq<char>>::empty(),
{
    let b = seq![Seq::<char>::empty()];
    assert(b.drop_last() =~= Seq::<Seq<char>>::empty());
    assert(b.last().len() == 0);
    assert(nonempty(b.drop_last()) == b.drop_last());
}

/// Without `//`, only the first and the last piece of a split can be empty.
proof fn lemma_interior_nonempty(s: Seq<char>)
    requires
        no_double_slash(s),
    ensures
        forall|j: int| 0 < j < split_on(s, '/').len() - 1 ==> (#[trigger] split_on(s, '/')[j]).len() > 0,
    decreases s.len(),
{
    if s.len() > 0 {
        let init = s.drop_last();
        assert(no_double_slash(init)) by {
            assert forall|j: int| 0 <= j < init.len() - 1 implies !(init[j] == '/' && #[trigger] init[j + 1] == '/') by {
                assert(init[j] == s[j]);
                assert(init[j + 1] == s[j + 1]);
            }
        }
        lemma_interior_nonempty(init);
        lemma_split_trailing(init, '/');
        let prev = split_on(init, '/');
        let cur = split_on(s, '/');
        assert forall|j: int| 0 < j < cur.len() - 1 implies (#[trigger] cur[j]).len() > 0 by {
            if s.last() == '/' {
                assert(cur[j] == prev[j]);
                if j == prev.len() - 1 {
                    assert(init.len() > 0);
                    if init.last() == '/' {
                        let t = s.len() - 2;
                        assert(s[t] == init.last());
                        assert(!(s[t] == '/' && s[t + 1] == '/'));
                        assert(false);
                    }
                }
            } else {
                assert(cur[j] == prev[j]);
            }
        }
    }
}

/// When only the first and last pieces may be empty, the normalised pieces
/// are the normalised non-empty pieces.
proof fn lemma_compact(parts: Seq<Seq<char>>)
    requires
        parts.len() >= 1,
        forall|j: int| 0 < j < parts.len() - 1 ==> (#[trigger] parts[j]).len() > 0,
    ensures
        normalized_pieces(parts, parts.len()) == cnorm(nonempty(parts)),
{
    if parts[0].len() == 0 {
        if parts.len() == 1 {
            assert(parts.drop_last() =~= Seq::<Seq<char>>::empty());
            assert(parts.last().len() == 0);
            assert(nonempty(parts.drop_last()) == parts.drop_last());
            assert(nonempty(parts) =~= Seq::<Seq<char>>::empty());
            assert(cnorm(nonempty(parts)) =~= Seq::<Seq<char>>::empty());
            assert(normalized_pieces(parts, 0) == Seq::<Seq<char>>::empty());
        } else {
            let rest = parts.drop_first();
            assert(parts[0] =~= Seq::<char>::empty());
            assert(seq![Seq::<char>::empty()] + rest =~= parts);
            lemma_shift(rest, rest.len());
            lemma_nonempty_concat(seq![Seq::<char>::empty()], rest);
            lemma_nonempty_blank();
            assert(Seq::<Seq<char>>::empty() + nonempty(rest) =~= nonempty(rest));
            assert forall|j: int| 0 <= j < rest.len() - 1 implies (#[trigger] rest[j]).len() > 0 by {
                assert(rest[j] == parts[j + 1]);
            }
            lemma_compact_tail(rest);
            assert(nonempty(parts) == nonempty(rest));
        }
    } else {
        assert forall|j: int| 0 <= j < parts.len() - 1 implies (#[trigger] parts[j]).len() > 0 by {}
        lemma_compact_tail(parts);
    }
}

proof fn lemma_compact_tail(q: Seq<Seq<char>>)
    requires
        q.len() >= 1,
        forall|j: int| 0 <= j < q.len() - 1 ==> (#[trigger] q[j]).len() > 0,
    ensures
        normalized_pieces(q, q.len()) == cnorm(nonempty(q)),
{
    if q.last().len() == 0 {
        let init = q.drop_last();
        assert forall|k: int| 0 <= k < init.len() implies (#[trigger] init[k]).len() > 0 by {
            assert(init[k] == q[k]);
        }
        lemma_drop_trailing_empty(q);
        lemma_all_nonempty(init, init.len());
        assert(cnorm(init).take(init.len() as int) =~= cnorm(init));
        lemma_nonempty_all(init);
    } else {
        assert forall|k: int| 0 <= k < q.len() implies (#[trigger] q[k]).len() > 0 by {
            if k == q.len() - 1 {
            }
        }
        lemma_all_nonempty(q, q.len());
        assert(cnorm(q).take(q.len() as int) =~= cnorm(q));
        lemma_nonempty_all(q);
    }
}

proof fn lemma_nonempty_lacks(ps: Seq<Seq<char>>)
    requires
        forall|k: int| 0 <= k < ps.len() ==> lacks(#[trigger] ps[k], '/'),
    ensures
        forall|k: int| 0 <= k < nonempty(ps).len() ==> lacks(#[trigger] nonempty(ps)[k], '/'),
    decreases ps.len(),
{
    if ps.len() > 0 {
        let init = ps.drop_last();
        assert forall|k: int| 0 <= k < init.len() implies lacks(#[trigger] init[k], '/') by {
            assert(init[k] == ps[k]);
        }
        lemma_nonempty_lacks(init);
        assert(lacks(ps[ps.len() - 1], '/'));
        let prev = nonempty(init);
        assert forall|k: int| 0 <= k < nonempty(ps).len() implies lacks(#[trigger] nonempty(ps)[k], '/') by {
            if k < prev.len() {
                assert(nonempty(ps)[k] == prev[k]);
            } else {
                assert(nonempty(ps)[k] == ps.last());
            }
        }
    }
}

proof fn lemma_join_last(ps: Seq<Seq<char>>, sep: Seq<char>)
    requires
        ps.len() >= 1,
        ps.last().len() > 0,
    ensures
        join_with(ps, sep).len() > 0,
        join_with(ps, sep).last() == ps.last().last(),
{
    if ps.len() > 1 {
        let j = join_with(ps, sep);
        assert(j == join_with(ps.drop_last(), sep) + sep + ps.last());
    }
}

/// What the normalised pieces of a path are made of: as many as the path has
/// non-empty pieces, each that piece or a placeholder, none empty, none
/// holding `/`.
proof fn lemma_np_facts(path: Seq<char>)
    ensures
        ({
            let parts = split_on(path, '/');
            let np = normalized_pieces(parts, parts.len());
            &&& np.len() == segments(path).len()
            &&& forall|k: int|
                0 <= k < np.len() ==> #[trigger] np[k] == segments(path)[k] || is_placeholder(np[k])
            &&& forall|k: int| 0 <= k < np.len() ==> (#[trigger] np[k]).len() > 0 && lacks(np[k], '/')
        }),
{
    let parts = split_on(path, '/');
    let np = normalized_pieces(parts, parts.len());
    lemma_pieces_correspond(parts, parts.len());
    assert(parts.take(parts.len() as int) =~= parts);
    lemma_split_lacks(path, '/');
    lemma_nonempty_lacks(parts);
    lemma_placeholder_shape();
    assert forall|k: int| 0 <= k < np.len() implies (#[trigger] np[k]).len() > 0 && lacks(np[k], '/') by {
        if !is_placeholder(np[k]) {
            assert(np[k] == segments(path)[k]);
        }
    }
}

proof fn lemma_all_blank(parts: Seq<Seq<char>>, n: nat)
    requires
        n <= parts.len(),
        forall|k: int| 0 <= k < parts.len() ==> (#[trigger] parts[k]).len() == 0,
    ensures
        normalized_pieces(parts, n) == Seq::<Seq<char>>::empty(),
    decreases n,
{
    if n > 0 {
        lemma_all_blank(parts, (n - 1) as nat);
        assert(parts[n - 1].len() == 0);
    }
}

/// How the text after the method splits: a leading empty piece, the
/// normalised pieces, and an empty piece for a trailing `/`.
proof fn lemma_route_path_split(path: Seq<char>)
    ensures
        ({
            let parts = split_on(path, '/');
            let np = normalized_pieces(parts, parts.len());
            let trailing = path.len() > 0 && path.last() == '/';
            &&& np.len() > 0 ==> split_on(route_path(path), '/') == seq![Seq::<char>::empty()] + np + (
            if trailing {
                seq![Seq::<char>::empty()]
            } else {
                Seq::<Seq<char>>::empty()
            })
            &&& segments(route_path(path)) == np
            &&& route_path(path).len() > 0 && route_path(path)[0] == '/'
            &&& (route_path(path).last() == '/' <==> (trailing || np.len() == 0))
        }),
{
    let parts = split_on(path, '/');
    let np = normalized_pieces(parts, parts.len());
    let trailing = path.len() > 0 && path.last() == '/';
    let body = join_with(np, "/"@);
    let e = Seq::<char>::empty();
    lemma_slash_literals();
    lemma_np_facts(path);
    lemma_nonempty_blank();
    let head = "/"@ + body;
    assert(head =~= e + seq!['/'] + body);
    lemma_split_concat(e, body, '/');
    assert(split_on(e, '/') == seq![e]);
    if np.len() > 0 {
        lemma_split_join(np);
        assert(split_on(head, '/') == seq![e] + np);
        lemma_nonempty_concat(seq![e], np);
        lemma_nonempty_all(np);
        assert(Seq::<Seq<char>>::empty() + np =~= np);
        lemma_join_last(np, "/"@);
        assert(lacks(np[np.len() - 1], '/'));
        assert(np.last().last() == np.last()[np.last().len() - 1]);
        if trailing {
            assert("/"@ + body.push('/') =~= head + seq!['/'] + e);
            lemma_split_concat(head, e, '/');
            lemma_nonempty_concat(seq![e] + np, seq![e]);
            assert(np + Seq::<Seq<char>>::empty() =~= np);
        } else {
            assert(route_path(path) == head);
        }
    } else {
        assert(body == e);
        assert(head =~= seq!['/']);
        assert(split_on(body, '/') == seq![e]);
        lemma_nonempty_concat(seq![e], seq![e]);
        if trailing {
            assert(route_path(path) =~= head + seq!['/'] + e);
            lemma_split_concat(head, e, '/');
            lemma_nonempty_concat(seq![e] + seq![e], seq![e]);
        }
        assert(Seq::<Seq<char>>::empty() + Seq::<Seq<char>>::empty() =~= Seq::<Seq<char>>::empty());
    }
}

// -------------------------------------------------------------------- laws

/// The shape of a route key: the method, a space, then a text that starts
/// with `/`; for a non-empty path the key ends with `/` exactly when the path
/// does.
pub proof fn law_route_shape(method: HttpMethod, path: Seq<char>)
    ensures
        normalized_route(method, path) == method_name(method) + " "@ + route_path(path),
        route_path(path).len() > 0 && route_path(path)[0] == '/',
        path.len() > 0 ==> (normalized_route(method, path).last() == '/' <==> path.last() == '/'),
{
    lemma_slash_literals();
    let parts = split_on(path, '/');
    let np = normalized_pieces(parts, parts.len());
    let body = join_with(np, "/"@);
    let route = if path.len() > 0 && path.last() == '/' { body.push('/') } else { body };
    assert(normalized_route(method, path) =~= method_name(method) + " "@ + ("/"@ + route));
    lemma_route_path_split(path);
    if path.len() > 0 && path.last() != '/' {
        lemma_split_trailing(path, '/');
        lemma_np_facts(path);
        lemma_split_len(path, '/');
        assert(parts[parts.len() - 1].len() > 0);
        assert(np == normalized_pieces(parts, (parts.len() - 1) as nat).push(
            normalized_piece(parts, parts.len() - 1),
        ));
        assert(np.len() > 0);
    }
}

/// The pieces of a route key correspond one to one to the non-empty pieces
/// of the path: there are as many, and each is the path's piece at the same
/// position or a placeholder.
pub proof fn law_route_pieces_correspond(method: HttpMethod, path: Seq<char>)
    ensures
        segments(route_path(path)).len() == segments(path).len(),
        forall|k: int|
            0 <= k < segments(path).len() ==> #[trigger] segments(route_path(path))[k]
                == segments(path)[k] || is_placeholder(segments(route_path(path))[k]),
{
    lemma_route_path_split(path);
    lemma_np_facts(path);
}

/// Major ids and literal names keep their text and their position: a
/// non-empty piece that does not directly follow `messages` (such as an id
/// after `channels`, `guilds` or `webhooks`), if it is the `k`-th non-empty
/// piece of the path, is also the `k`-th piece of the route key.
pub proof fn law_major_id_kept(method: HttpMethod, path: Seq<char>, i: int)
    requires
        0 <= i < split_on(path, '/').len(),
        split_on(path, '/')[i].len() > 0,
        i == 0 || split_on(path, '/')[i - 1] != "messages"@,
    ensures
        ({
            let parts = split_on(path, '/');
            let k = nonempty(parts.take(i)).len() as int;
            &&& k < segments(path).len()
            &&& segments(path)[k] == parts[i]
            &&& segments(route_path(path))[k] == parts[i]
        }),
{
    let parts = split_on(path, '/');
    let n = parts.len();
    let k = nonempty(parts.take(i)).len() as int;
    lemma_route_path_split(path);
    // the path's segments
    assert(parts =~= parts.take(i + 1) + parts.skip(i + 1));
    lemma_nonempty_concat(parts.take(i + 1), parts.skip(i + 1));
    assert(parts.take(i + 1).drop_last() =~= parts.take(i));
    assert(parts.take(i + 1).last() == parts[i]);
    assert(nonempty(parts.take(i + 1)) == nonempty(parts.take(i)).push(parts[i]));
    assert(segments(path)[k] == parts[i]);
    // the route's pieces
    lemma_pieces_correspond(parts, i as nat);
    assert(normalized_piece(parts, i) == parts[i]);
    assert(normalized_pieces(parts, (i + 1) as nat) == normalized_pieces(parts, i as nat).push(parts[i]));
    lemma_pieces_grow(parts, (i + 1) as nat, n);
}

proof fn lemma_pieces_grow(parts: Seq<Seq<char>>, m: nat, n: nat)
    requires
        m <= n <= parts.len(),
    ensures
        normalized_pieces(parts, m).len() <= normalized_pieces(parts, n).len(),
        forall|j: int|
            0 <= j < normalized_pieces(parts, m).len() ==> #[trigger] normalized_pieces(parts, n)[j]
                == normalized_pieces(parts, m)[j],
    decreases n,
{
    if n > m {
        lemma_pieces_grow(parts, m, (n - 1) as nat);
    }
}

/// A normalised route is stable: for a non-empty path without `//`,
/// normalising the text after the method again gives the same route key.
pub proof fn law_route_idempotent(method: HttpMethod, path: Seq<char>)
    requires
        path.len() > 0,
        no_double_slash(path),
    ensures
        normalized_route(method, route_path(path)) == normalized_route(method, path),
{
    let parts = split_on(path, '/');
    let np = normalized_pieces(parts, parts.len());
    let q = route_path(path);
    let qparts = split_on(q, '/');
    let trailing = path.last() == '/';
    lemma_split_len(path, '/');
    lemma_interior_nonempty(path);
    lemma_compact(parts);
    lemma_route_path_split(path);
    lemma_np_facts(path);
    if np.len() > 0 {
        assert forall|j: int| 0 < j < qparts.len() - 1 implies (#[trigger] qparts[j]).len() > 0 by {
            assert(qparts[j] == np[j - 1]);
        }
        lemma_compact(qparts);
        lemma_cnorm_stable(nonempty(parts));
        assert(normalized_pieces(qparts, qparts.len()) == np);
        assert(q.last() == '/' <==> trailing);
    } else {
        if !trailing {
            lemma_split_trailing(path, '/');
            assert(np == normalized_pieces(parts, (parts.len() - 1) as nat).push(
                normalized_piece(parts, parts.len() - 1),
            ));
        }
        assert(trailing);
        lemma_slash_literals();
        assert(q =~= seq!['/', '/']);
        let e = Seq::<char>::empty();
        assert(q =~= (e + seq!['/'] + e) + seq!['/'] + e);
        lemma_split_concat(e + seq!['/'] + e, e, '/');
        lemma_split_concat(e, e, '/');
        assert(split_on(e, '/') == seq![e]);
        assert forall|k: int| 0 <= k < qparts.len() implies (#[trigger] qparts[k]).len() == 0 by {
            assert(qparts =~= seq![e] + seq![e] + seq![e]);
        }
        lemma_all_blank(qparts, qparts.len());
    }
}

} // verus!
