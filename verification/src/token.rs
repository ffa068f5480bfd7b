//! OAuth tokens of the TradeStation API.
use vstd::prelude::*;
use crate::text::{join, join_strs, str_is, str_views};

verus! {

/// The scopes a client can be authorized for.
#[derive(Clone, Copy, Debug, PartialEq, Eq)]
pub enum Scope {
    /// Sign in with OpenID.
    OpenId,
    /// Receive a refresh token.
    OfflineAccess,
    /// Read the user's profile.
    Profile,
    /// Read market data.
    MarketData,
    /// Read account data.
    ReadAccount,
    /// Place and change orders.
    Trade,
}

/// The bearer token a client authenticates with.
#[derive(Clone, Debug)]
pub struct Token {
    /// The access token sent with every request.
    pub access_token: String,
    /// The token that obtains a new access token when it expires.
    pub refresh_token: String,
    /// The OpenID token.
    pub id_token: String,
    /// The type of token, `"Bearer"`.
    pub token_type: String,
    /// The scopes the token grants.
    pub scope: Vec<Scope>,
    /// Seconds until the access token expires.
    pub expires_in: u64,
}

/// What the token endpoint answers to a refresh: everything but the refresh token.
#[derive(Clone, Debug)]
pub struct RefreshedToken {
    /// The new access token.
    pub access_token: String,
    /// The new OpenID token.
    pub id_token: String,
    /// The scopes the new token grants.
    pub scope: Vec<Scope>,
    /// The type of token.
    pub token_type: String,
    /// Seconds until the new access token expires.
    pub expires_in: u64,
}

/// The token after a refresh: every value comes from the refresh reply but the
/// refresh token, which the reply does not carry and which is kept.
pub open spec fn refreshed_token(t: Token, new_token: RefreshedToken) -> Token {
    Token {
        refresh_token: t.refresh_token,
        access_token: new_token.access_token,
        id_token: new_token.id_token,
        scope: new_token.scope,
        token_type: new_token.token_type,
        expires_in: new_token.expires_in,
    }
}

impl Token {
    /// The token after a refresh: the refreshed values, with this token's
    /// refresh token kept.
    pub fn refreshed(&self, new_token: RefreshedToken) -> (r: Token)
        ensures
            r == refreshed_token(*self, new_token),
    {
        Token {
            refresh_token: self.refresh_token.clone(),
            access_token: new_token.access_token,
            id_token: new_token.id_token,
            scope: new_token.scope,
            token_type: new_token.token_type,
            expires_in: new_token.expires_in,
        }
    }

    /// A token with placeholder values, for clients of a mock server.
    pub fn dummy() -> (r: Token)
        ensures
            r.access_token@ == "dummy_access_token"@,
            r.refresh_token@ == "dummy_refresh_token"@,
            r.id_token@ == "dummy_id_token"@,
            r.token_type@ == "Bearer"@,
            r.scope@ == Seq::<Scope>::empty(),
            r.expires_in == 1200,
    {
        Token {
            access_token: String::from_str("dummy_access_token"),
            refresh_token: String::from_str("dummy_refresh_token"),
            id_token: String::from_str("dummy_id_token"),
            token_type: String::from_str("Bearer"),
            scope: Vec::new(),
            expires_in: 1200,
        }
    }
}

/// Refreshing never loses the refresh token, and only the latest refresh
/// counts: refreshing with `a` and then with `b` gives the token that
/// refreshing with `b` alone gives.
pub proof fn law_latest_refresh_wins(t: Token, a: RefreshedToken, b: RefreshedToken)
    ensures
        refreshed_token(t, a).refresh_token == t.refresh_token,
        refreshed_token(refreshed_token(t, a), b) == refreshed_token(t, b),
{
}

} // verus!

verus! {

/// The name of a scope, as the OAuth server writes it.
pub open spec fn scope_name(s: Scope) -> Seq<char> {
    match s {
        Scope::OpenId => "openid"@,
        Scope::OfflineAccess => "offline_access"@,
        Scope::Profile => "profile"@,
        Scope::MarketData => "MarketData"@,
        Scope::ReadAccount => "ReadAccount"@,
        Scope::Trade => "Trade"@,
    }
}

/// The scope with the name `name`, if there is one.
pub open spec fn scope_named(name: Seq<char>) -> Option<Scope> {
    if name == "openid"@ {
        Some(Scope::OpenId)
    } else if name == "offline_access"@ {
        Some(Scope::OfflineAccess)
    } else if name == "profile"@ {
        Some(Scope::Profile)
    } else if name == "MarketData"@ {
        Some(Scope::MarketData)
    } else if name == "ReadAccount"@ {
        Some(Scope::ReadAccount)
    } else if name == "Trade"@ {
        Some(Scope::Trade)
    } else {
        None
    }
}

/// The words of a text read so far: the words already ended by a space, and
/// the word being read.
pub open spec fn space_split(s: Seq<char>) -> (Seq<Seq<char>>, Seq<char>)
    decreases s.len(),
{
    if s.len() == 0 {
        (Seq::empty(), Seq::empty())
    } else {
        let (done, current) = space_split(s.drop_last());
        if s.last() == ' ' {
            if current.len() > 0 {
                (done.push(current), Seq::empty())
            } else {
                (done, Seq::empty())
            }
        } else {
            (done, current.push(s.last()))
        }
    }
}

/// The words of a text: its non-empty pieces between spaces, in order.
pub open spec fn space_words(s: Seq<char>) -> Seq<Seq<char>> {
    let (done, current) = space_split(s);
    if current.len() > 0 {
        done.push(current)
    } else {
        done
    }
}

/// The scopes named by the words, in order; words that name no scope are skipped.
pub open spec fn named_scopes(words: Seq<Seq<char>>) -> Seq<Scope>
    decreases words.len(),
{
    if words.len() == 0 {
        Seq::empty()
    } else {
        let before = named_scopes(words.drop_last());
        match scope_named(words.last()) {
            Some(sc) => before.push(sc),
            None => before,
        }
    }
}

impl Scope {
    /// The name of the scope, as the OAuth server writes it.
    pub fn name(&self) -> (r: &'static str)
        ensures
            r@ == scope_name(*self),
    {
        match self {
            Scope::OpenId => "openid",
            Scope::OfflineAccess => "offline_access",
            Scope::Profile => "profile",
            Scope::MarketData => "MarketData",
            Scope::ReadAccount => "ReadAccount",
            Scope::Trade => "Trade",
        }
    }

    /// The scope with the name `name`, if there is one.
    pub fn from_name(name: &str) -> (r: Option<Scope>)
        ensures
            r == scope_named(name@),
    {
        if str_is(name, "openid") {
            Some(Scope::OpenId)
        } else if str_is(name, "offline_access") {
            Some(Scope::OfflineAccess)
        } else if str_is(name, "profile") {
            Some(Scope::Profile)
        } else if str_is(name, "MarketData") {
            Some(Scope::MarketData)
        } else if str_is(name, "ReadAccount") {
            Some(Scope::ReadAccount)
        } else if str_is(name, "Trade") {
            Some(Scope::Trade)
        } else {
            None
        }
    }
}

/// Appends the scope named `word` to `scopes`, when the word names one.
fn push_named_scope(scopes: &mut Vec<Scope>, word: &String)
    ensures
        final(scopes)@ == match scope_named(word@) {
            Some(sc) => old(scopes)@.push(sc),
            None => old(scopes)@,
        },
{
    match Scope::from_name(word.as_str()) {
        Some(sc) => scopes.push(sc),
        None => {},
    }
}

/// The scopes of a space separated scope list, such as the `scope` of a
/// token reply; names of unknown scopes are skipped.
pub fn parse_scopes(text: &str) -> (r: Vec<Scope>)
    ensures
        r@ == named_scopes(space_words(text@)),
{
    let n = text.unicode_len();
    let mut scopes: Vec<Scope> = Vec::new();
    let mut current = String::new();
    let mut i: usize = 0;
    while i < n
        invariant
            n == text@.len(),
            i <= n,
            space_split(text@.take(i as int)).1 == current@,
            scopes@ == named_scopes(space_split(text@.take(i as int)).0),
        decreases n - i,
    {
        let c = text.get_char(i);
        let ghost prefix = text@.take(i as int + 1);
        proof {
            assert(prefix.drop_last() =~= text@.take(i as int));
            assert(prefix.last() == c);
        }
        if c == ' ' {
            if current.unicode_len() > 0 {
                let ghost words_before = space_split(text@.take(i as int)).0;
                push_named_scope(&mut scopes, &current);
                proof {
                    assert(words_before.push(current@).drop_last() =~= words_before);
                }
                current = String::new();
            }
        } else {
            current.push(c);
        }
        i = i + 1;
    }
    proof {
        assert(text@.take(n as int) =~= text@);
    }
    if current.unicode_len() > 0 {
        let ghost words_before = space_split(text@).0;
        push_named_scope(&mut scopes, &current);
        proof {
            assert(words_before.push(current@).drop_last() =~= words_before);
        }
    }
    scopes
}

/// The names of the scopes, in order.
pub open spec fn scope_names(scopes: Seq<Scope>) -> Seq<Seq<char>> {
    scopes.map_values(|sc: Scope| scope_name(sc))
}

/// The scopes written as a space separated list, as an OAuth `scope` is.
pub fn scopes_text(scopes: &Vec<Scope>) -> (r: String)
    ensures
        r@ == join(scope_names(scopes@), " "@),
{
    let mut names: Vec<&str> = Vec::new();
    let mut i: usize = 0;
    while i < scopes.len()
        invariant
            i <= scopes.len(),
            names@.len() == i,
            str_views(names@) =~= scope_names(scopes@.take(i as int)),
        decreases scopes.len() - i,
    {
        let ghost before = names@;
        let nm = scopes[i].name();
        names.push(nm);
        proof {
            assert(names@ =~= before.push(nm));
            assert(str_views(names@) =~= str_views(before).push(nm@));
            assert(scopes@.take(i as int + 1) =~= scopes@.take(i as int).push(scopes@[i as int]));
            assert(str_views(names@) =~= scope_names(scopes@.take(i as int + 1)));
        }
        i = i + 1;
    }
    assert(scopes@.take(scopes@.len() as int) =~= scopes@);
    join_strs(&names, " ")
}

/// Whether a text has no space in it.
pub open spec fn has_no_space(t: Seq<char>) -> bool {
    forall|i: int| 0 <= i < t.len() ==> t[i] != ' '
}

proof fn lemma_split_append_word(a: Seq<char>, t: Seq<char>)
    requires
        has_no_space(t),
    ensures
        space_split(a + t) == (space_split(a).0, space_split(a).1 + t),
    decreases t.len(),
{
    if t.len() == 0 {
        assert(a + t =~= a);
        assert(space_split(a).1 + t =~= space_split(a).1);
    } else {
        let t0 = t.drop_last();
        lemma_split_append_word(a, t0);
        assert((a + t).drop_last() =~= a + t0);
        assert((a + t).last() == t.last());
        assert(space_split(a).1 + t0 + seq![t.last()] =~= space_split(a).1 + t);
    }
}

proof fn lemma_split_join(ws: Seq<Seq<char>>)
    requires
        ws.len() > 0,
        forall|i: int| 0 <= i < ws.len() ==> ws[i].len() > 0 && has_no_space(#[trigger] ws[i]),
    ensures
        space_split(join(ws, " "@)) == (ws.drop_last(), ws.last()),
    decreases ws.len(),
{
    reveal_strlit(" ");
    if ws.len() == 1 {
        lemma_split_append_word(Seq::empty(), ws[0]);
        assert(Seq::<char>::empty() + ws[0] =~= ws[0]);
        assert(ws.drop_last() =~= Seq::<Seq<char>>::empty());
        assert(Seq::<char>::empty() + ws[0] =~= ws[0]);
    } else {
        let rest = ws.drop_last();
        assert forall|i: int| 0 <= i < rest.len() implies rest[i].len() > 0 && has_no_space(#[trigger] rest[i]) by {
            assert(rest[i] == ws[i]);
        }
        lemma_split_join(rest);
        let head = join(rest, " "@) + " "@;
        assert(head.drop_last() =~= join(rest, " "@));
        assert(head.last() == ' ');
        assert(rest.drop_last().push(rest.last()) =~= rest);
        assert(space_split(head) == (rest, Seq::<char>::empty()));
        lemma_split_append_word(head, ws.last());
        assert(join(ws, " "@) == head + ws.last());
        assert(Seq::<char>::empty() + ws.last() =~= ws.last());
    }
}

proof fn lemma_scope_name_named(sc: Scope)
    ensures
        scope_named(scope_name(sc)) == Some(sc),
        scope_name(sc).len() > 0,
        has_no_space(scope_name(sc)),
{
    reveal_strlit("openid");
    reveal_strlit("offline_access");
    reveal_strlit("profile");
    reveal_strlit("MarketData");
    reveal_strlit("ReadAccount");
    reveal_strlit("Trade");
    assert("offline_access"@.len() != "openid"@.len());
    assert("profile"@.len() != "openid"@.len() && "profile"@.len() != "offline_access"@.len());
    assert("MarketData"@.len() != "openid"@.len() && "MarketData"@.len() != "offline_access"@.len()
        && "MarketData"@.len() != "profile"@.len());
    assert("ReadAccount"@.len() != "openid"@.len() && "ReadAccount"@.len() != "offline_access"@.len()
        && "ReadAccount"@.len() != "profile"@.len() && "ReadAccount"@.len() != "MarketData"@.len());
    assert("Trade"@.len() != "openid"@.len() && "Trade"@.len() != "offline_access"@.len()
        && "Trade"@.len() != "profile"@.len() && "Trade"@.len() != "MarketData"@.len()
        && "Trade"@.len() != "ReadAccount"@.len());
}

proof fn lemma_named_scopes_of_names(v: Seq<Scope>)
    ensures
        named_scopes(scope_names(v)) == v,
    decreases v.len(),
{
    if v.len() > 0 {
        lemma_named_scopes_of_names(v.drop_last());
        assert(scope_names(v).drop_last() =~= scope_names(v.drop_last()));
        lemma_scope_name_named(v.last());
        assert(v.drop_last().push(v.last()) =~= v);
    } else {
        assert(scope_names(v) =~= Seq::<Seq<char>>::empty());
    }
}

/// A token's scopes survive being written as a scope list and read back:
/// `parse_scopes` of what `scopes_text` writes gives the same scopes, in order.
pub proof fn law_scopes_text_round_trip(v: Seq<Scope>)
    ensures
        named_scopes(space_words(join(scope_names(v), " "@))) == v,
{
    let names = scope_names(v);
    if v.len() == 0 {
        assert(names =~= Seq::<Seq<char>>::empty());
        assert(space_words(Seq::<char>::empty()) =~= Seq::<Seq<char>>::empty());
    } else {
        assert forall|i: int| 0 <= i < names.len() implies names[i].len() > 0 && has_no_space(#[trigger] names[i]) by {
            lemma_scope_name_named(v[i]);
        }
        lemma_split_join(names);
        assert(names.drop_last().push(names.last()) =~= names);
    }
    lemma_named_scopes_of_names(v);
}

} // verus!
