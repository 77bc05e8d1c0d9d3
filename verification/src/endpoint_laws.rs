//! What the endpoints send, stated over the query they are given.

use vstd::prelude::*;
use crate::album::index_or_zero;
use crate::account::login_cellphone_call;
use crate::calls::{present, val};
use crate::comment::{comment_call, table_index, thread_id, OPERATORS, RESOURCE_TYPES};
use crate::laws::{
    free_of, lemma_nat_text_parses, lemma_query_pairs_concat, lemma_query_pairs_single,
    lemma_query_value_free, lemma_rename_lookup,
};
use crate::music::{register_cellphone_call, song_url_call};
use crate::query::{json_text, lookup, query_pairs, rename_key, revalue, value_or};
use crate::text::nat_text;
use crate::video::mv_sub_call;

verus! {

/// Videos: a call is made exactly when `mvid` is given; it goes to
/// `/mv/sub` exactly when the query's `t` is `1`, and to `/mv/unsub`
/// otherwise (another `t`, or none).
pub proof fn law_mv_sub_direction(query: Seq<char>)
    ensures
        ({
            let q = query_pairs(query);
            &&& (mv_sub_call(q) is Some <==> present(q, "mvid"@))
            &&& (mv_sub_call(q) matches Some(c) ==> (c.url == "https://music.163.com/weapi/mv/sub"@
                <==> lookup(q, "t"@) == Some("1"@)))
            &&& (mv_sub_call(q) matches Some(c) ==> (c.url == "https://music.163.com/weapi/mv/sub"@
                || c.url == "https://music.163.com/weapi/mv/unsub"@))
        }),
{
    let q = query_pairs(query);
    reveal_strlit("https://music.163.com/weapi/mv/");
    reveal_strlit("https://music.163.com/weapi/mv/sub");
    reveal_strlit("https://music.163.com/weapi/mv/unsub");
    reveal_strlit("sub");
    reveal_strlit("unsub");
    reveal_strlit("0");
    reveal_strlit("1");
    let sub = "https://music.163.com/weapi/mv/"@ + "sub"@;
    let unsub = "https://music.163.com/weapi/mv/"@ + "unsub"@;
    assert(sub =~= "https://music.163.com/weapi/mv/sub"@);
    assert(unsub =~= "https://music.163.com/weapi/mv/unsub"@);
    assert(sub.len() != unsub.len());
    assert("0"@ != "1"@) by {
        assert("0"@[0] != "1"@[0]);
    }
}

/// Song addresses: whenever the query has `id` (and no `ids`), the Linux
/// client asks the player address with every pair of the query, in order:
/// the key `id` renamed `ids`, each value equal to the id put in brackets,
/// every other key and value kept.
pub proof fn law_song_url_keeps_pairs(query: Seq<char>)
    requires
        present(query_pairs(query), "id"@),
        !present(query_pairs(query), "ids"@),
    ensures
        ({
            let q = query_pairs(query);
            let id = val(q, "id"@);
            song_url_call(q) matches Some(c) && c.crypto == "linuxapi"@ && c.url
                == "https://music.163.com/api/song/enhance/player/url"@ && exists|
                p: Seq<(Seq<char>, Seq<char>)>,
            |
                c.payload == json_text(p) && p.len() == q.len() && forall|i: int|
                    0 <= i < q.len() ==> (#[trigger] p[i]).0 == (if q[i].0 == "id"@ {
                        "ids"@
                    } else {
                        q[i].0
                    }) && p[i].1 == (if q[i].1 == id {
                        "["@ + id + "]"@
                    } else {
                        q[i].1
                    })
        }),
{
    let q = query_pairs(query);
    let id = val(q, "id"@);
    lemma_rename_lookup(q, "id"@, "ids"@);
    let renamed = rename_key(q, "id"@, "ids"@);
    let p = revalue(renamed, id, "["@ + id + "]"@);
    assert(forall|i: int|
        0 <= i < q.len() ==> (#[trigger] p[i]).0 == (if q[i].0 == "id"@ {
            "ids"@
        } else {
            q[i].0
        }) && p[i].1 == (if q[i].1 == id {
            "["@ + id + "]"@
        } else {
            q[i].1
        }));
}

/// Replying to a comment (`t=2`) on a thread the query names, with
/// `commentId` and `content` given: a POST to the reply address whose JSON
/// ends with the id of the comment replied to and then the content.
pub proof fn law_comment_reply_sends_comment_id(query: Seq<char>)
    requires
        lookup(query_pairs(query), "t"@) == Some("2"@),
        present(query_pairs(query), "commentId"@),
        present(query_pairs(query), "content"@),
        table_index(query_pairs(query), "type"@, 7) matches Some(ri) && thread_id(
            query_pairs(query),
            RESOURCE_TYPES[ri]@,
            "A_EV_2_"@,
        ) is Some,
    ensures
        ({
            let q = query_pairs(query);
            comment_call(q) matches Some(c) && c.method == "POST"@ && c.url
                == "https://music.163.com/weapi/resource/comments/reply"@ && exists|
                p: Seq<(Seq<char>, Seq<char>)>,
            |
                c.payload == json_text(p) && p.len() >= 2 && p[p.len() - 2] == (
                    "commentId"@,
                    val(q, "commentId"@),
                ) && p[p.len() - 1] == ("content"@, val(q, "content"@))
        }),
{
    let q = query_pairs(query);
    reveal_strlit("2");
    assert("2"@ =~= nat_text(2));
    lemma_nat_text_parses(2, usize::MAX as int);
    assert(index_or_zero("2"@) == 2);
    assert(table_index(q, "t"@, 3) == Some(2int));
    reveal_strlit("reply");
    reveal_strlit("add");
    reveal_strlit("delete");
    assert(OPERATORS[2]@ == "reply"@);
    assert("reply"@ != "add"@ && "reply"@ != "delete"@) by {
        assert("reply"@.len() != "add"@.len() && "reply"@.len() != "delete"@.len());
    }
    reveal_strlit("https://music.163.com/weapi/resource/comments/");
    reveal_strlit("https://music.163.com/weapi/resource/comments/reply");
    assert("https://music.163.com/weapi/resource/comments/"@ + "reply"@
        =~= "https://music.163.com/weapi/resource/comments/reply"@);
    let cid = val(q, "commentId"@);
    let ct = val(q, "content"@);
    lemma_query_value_free(query, "commentId"@);
    lemma_query_value_free(query, "content"@);
    reveal_strlit("&commentId=");
    reveal_strlit("&content=");
    reveal_strlit("commentId");
    reveal_strlit("content");
    let ri = table_index(q, "type"@, 7)->0;
    let thread = thread_id(q, RESOURCE_TYPES[ri]@, "A_EV_2_"@)->0;
    let x = "commentId"@ + seq!['='] + cid;
    let y = "content"@ + seq!['='] + ct;
    let whole = thread + ("&commentId="@ + cid + "&content="@ + ct);
    assert(whole =~= (thread + seq!['&'] + x) + seq!['&'] + y);
    assert(free_of("commentId"@, '&') && free_of("commentId"@, '='));
    assert(free_of("content"@, '&') && free_of("content"@, '='));
    lemma_query_pairs_concat(thread + seq!['&'] + x, y);
    lemma_query_pairs_concat(thread, x);
    lemma_query_pairs_single("commentId"@, cid);
    lemma_query_pairs_single("content"@, ct);
    let p = query_pairs(whole);
    assert(p =~= query_pairs(thread) + seq![("commentId"@, cid)] + seq![("content"@, ct)]);
    assert(p[p.len() - 2] == ("commentId"@, cid));
    assert(p[p.len() - 1] == ("content"@, ct));
}

/// Phone log-in with a given password digest: whenever `phone`,
/// `countrycode` and `password` are given, a call is made, as a desktop
/// browser, whose JSON holds in order the phone, the country code, the
/// digest as the password, and `rememberLogin`, `true` unless the query
/// gives it.
pub proof fn law_login_cellphone_with_digest(query: Seq<char>, digest: Seq<char>)
    requires
        present(query_pairs(query), "phone"@),
        present(query_pairs(query), "countrycode"@),
        present(query_pairs(query), "password"@),
        free_of(digest, '&'),
    ensures
        ({
            let q = query_pairs(query);
            login_cellphone_call(q, digest) matches Some(c) && c.method == "POST"@ && c.ua == "pc"@
                && c.crypto == "weapi"@ && c.url == "https://music.163.com/weapi/login/cellphone"@
                && c.payload == json_text(
                seq![
                    ("phone"@, val(q, "phone"@)),
                    ("countrycode"@, val(q, "countrycode"@)),
                    ("password"@, digest),
                    ("rememberLogin"@, value_or(q, "rememberLogin"@, "true"@)),
                ],
            )
        }),
{
    let q = query_pairs(query);
    let ph = val(q, "phone"@);
    let cc = val(q, "countrycode"@);
    let rm = value_or(q, "rememberLogin"@, "true"@);
    lemma_query_value_free(query, "phone"@);
    lemma_query_value_free(query, "countrycode"@);
    lemma_query_value_free(query, "rememberLogin"@);
    reveal_strlit("true");
    assert(free_of(rm, '&'));
    reveal_strlit("phone=");
    reveal_strlit("&countrycode=");
    reveal_strlit("&password=");
    reveal_strlit("&rememberLogin=");
    reveal_strlit("phone");
    reveal_strlit("countrycode");
    reveal_strlit("password");
    reveal_strlit("rememberLogin");
    assert(free_of("phone"@, '&') && free_of("phone"@, '='));
    assert(free_of("countrycode"@, '&') && free_of("countrycode"@, '='));
    assert(free_of("password"@, '&') && free_of("password"@, '='));
    assert(free_of("rememberLogin"@, '&') && free_of("rememberLogin"@, '='));
    let a = "phone"@ + seq!['='] + ph;
    let b = "countrycode"@ + seq!['='] + cc;
    let d = "password"@ + seq!['='] + digest;
    let e = "rememberLogin"@ + seq!['='] + rm;
    let whole = "phone="@ + ph + "&countrycode="@ + cc + "&password="@ + digest
        + "&rememberLogin="@ + rm;
    assert(whole =~= ((a + seq!['&'] + b) + seq!['&'] + d) + seq!['&'] + e);
    lemma_query_pairs_concat((a + seq!['&'] + b) + seq!['&'] + d, e);
    lemma_query_pairs_concat(a + seq!['&'] + b, d);
    lemma_query_pairs_concat(a, b);
    lemma_query_pairs_single("phone"@, ph);
    lemma_query_pairs_single("countrycode"@, cc);
    lemma_query_pairs_single("password"@, digest);
    lemma_query_pairs_single("rememberLogin"@, rm);
    assert(query_pairs(whole) =~= seq![
        ("phone"@, ph),
        ("countrycode"@, cc),
        ("password"@, digest),
        ("rememberLogin"@, rm),
    ]);
}

/// Phone registration with a given password digest: whenever `password` is
/// given, the whole query is sent, pair by pair in order, with every value
/// equal to the password replaced by the digest and everything else kept.
pub proof fn law_register_cellphone_with_digest(query: Seq<char>, digest: Seq<char>)
    requires
        present(query_pairs(query), "password"@),
    ensures
        ({
            let q = query_pairs(query);
            let pw = val(q, "password"@);
            register_cellphone_call(q, digest) matches Some(c) && c.crypto == "weapi"@ && c.url
                == "https://music.163.com/weapi/register/cellphone"@ && exists|
                p: Seq<(Seq<char>, Seq<char>)>,
            |
                c.payload == json_text(p) && p.len() == q.len() && forall|i: int|
                    0 <= i < q.len() ==> (#[trigger] p[i]).0 == q[i].0 && p[i].1 == (if q[i].1
                        == pw {
                        digest
                    } else {
                        q[i].1
                    })
        }),
{
    let q = query_pairs(query);
    let pw = val(q, "password"@);
    let p = revalue(q, pw, digest);
    assert(forall|i: int|
        0 <= i < q.len() ==> (#[trigger] p[i]).0 == q[i].0 && p[i].1 == (if q[i].1 == pw {
            digest
        } else {
            q[i].1
        }));
}

} // verus!
