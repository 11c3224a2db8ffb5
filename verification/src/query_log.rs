//! The query log: for each user, the searches that the user has made, in
//! order, and the JSON document that keeps them.

use vstd::prelude::*;
use crate::text::{join_all, joined, texts_of};

verus! {

/// The searches of one user.
#[derive(Debug, Clone, PartialEq, Eq)]
pub struct UserEntry {
    pub user: String,
    pub queries: Vec<String>,
}

/// The searches of one user, as a value.
pub struct UserHistory {
    pub user: Seq<char>,
    pub queries: Seq<Seq<char>>,
}

impl View for UserEntry {
    type V = UserHistory;

    open spec fn view(&self) -> UserHistory {
        UserHistory { user: self.user@, queries: texts_of(self.queries@) }
    }
}

/// The entries of `v` as values, in order.
pub open spec fn histories(v: Seq<UserEntry>) -> Seq<UserHistory> {
    v.map_values(|e: UserEntry| e@)
}

/// The index of the first entry of `user` in `log`, or the length of `log`
/// where the user has none.
pub open spec fn position(log: Seq<UserHistory>, user: Seq<char>) -> int
    decreases log.len(),
{
    if log.len() == 0 {
        0
    } else if log[0].user == user {
        0
    } else {
        1 + position(log.drop_first(), user)
    }
}

/// Whether no user has two entries in `log`.
pub open spec fn distinct_users(log: Seq<UserHistory>) -> bool {
    forall|i: int, j: int|
        0 <= i < log.len() && 0 <= j < log.len() && i != j ==> (#[trigger] log[i]).user
            != (#[trigger] log[j]).user
}

/// The searches that `log` holds for `user`: none where the user has no
/// entry.
pub open spec fn history_of(log: Seq<UserHistory>, user: Seq<char>) -> Seq<Seq<char>> {
    if position(log, user) < log.len() {
        log[position(log, user)].queries
    } else {
        Seq::empty()
    }
}

/// `log` after `queries` were appended to the searches of `user`. A user
/// without an entry gets one, at the end.
pub open spec fn appended(
    log: Seq<UserHistory>,
    user: Seq<char>,
    queries: Seq<Seq<char>>,
) -> Seq<UserHistory> {
    if position(log, user) < log.len() {
        log.update(
            position(log, user),
            UserHistory { user, queries: log[position(log, user)].queries + queries },
        )
    } else {
        log.push(UserHistory { user, queries })
    }
}

/// The log that comes of appending the searches of each of `entries`, in
/// order, to an empty log.
pub open spec fn collected(entries: Seq<UserHistory>) -> Seq<UserHistory>
    decreases entries.len(),
{
    if entries.len() == 0 {
        Seq::empty()
    } else {
        appended(collected(entries.drop_last()), entries.last().user, entries.last().queries)
    }
}

/// The JSON string literal of the text `s`, as `serde_json` writes it.
pub uninterp spec fn json_quoted(s: Seq<char>) -> Seq<char>;

/// The JSON array of the members `quoted`, each already JSON.
pub open spec fn array_text(quoted: Seq<Seq<char>>) -> Seq<char> {
    "["@ + joined(quoted, ","@) + "]"@
}

/// The member of a JSON object with the key `quoted_key` and the value
/// `value`, each already JSON.
pub open spec fn member_text(quoted_key: Seq<char>, value: Seq<char>) -> Seq<char> {
    quoted_key + ":"@ + value
}

/// The document whose one member, `queries`, is the object of `members`.
pub open spec fn document_around(members: Seq<Seq<char>>) -> Seq<char> {
    "{\"queries\":{"@ + joined(members, ","@) + "}}"@
}

/// The JSON string literals of `items`, in order.
pub open spec fn quoted_all(items: Seq<Seq<char>>) -> Seq<Seq<char>> {
    items.map_values(|s: Seq<char>| json_quoted(s))
}

/// The member that keeps the searches of one user.
pub open spec fn history_text(h: UserHistory) -> Seq<char> {
    member_text(json_quoted(h.user), array_text(quoted_all(h.queries)))
}

/// The document that keeps `log`: one member for each user, in order.
pub open spec fn document_text(log: Seq<UserHistory>) -> Seq<char> {
    document_around(log.map_values(|h: UserHistory| history_text(h)))
}

/// Where the first `i` entries of `log` are not those of `user`, and the
/// next one is or there is none, `i` is the position of `user`.
pub proof fn lemma_position(log: Seq<UserHistory>, user: Seq<char>, i: int)
    requires
        0 <= i <= log.len(),
        forall|j: int| 0 <= j < i ==> (#[trigger] log[j]).user != user,
        i < log.len() ==> log[i].user == user,
    ensures
        position(log, user) == i,
    decreases i,
{
    if i > 0 {
        let rest = log.drop_first();
        assert forall|j: int| 0 <= j < i - 1 implies (#[trigger] rest[j]).user != user by {
            assert(rest[j] == log[j + 1]);
        }
        lemma_position(rest, user, i - 1);
    }
}

/// The position of a user is an index of an entry of that user, or the
/// length of the log where no entry is.
pub proof fn lemma_position_bound(log: Seq<UserHistory>, user: Seq<char>)
    ensures
        0 <= position(log, user) <= log.len(),
        position(log, user) < log.len() ==> log[position(log, user)].user == user,
        forall|j: int| 0 <= j < position(log, user) ==> (#[trigger] log[j]).user != user,
    decreases log.len(),
{
    if log.len() > 0 && log[0].user != user {
        let rest = log.drop_first();
        lemma_position_bound(rest, user);
        assert forall|j: int| 0 <= j < position(log, user) implies (#[trigger] log[j]).user
            != user by {
            if j > 0 {
                assert(log[j] == rest[j - 1]);
            }
        }
        if position(log, user) < log.len() {
            assert(log[position(log, user)] == rest[position(rest, user)]);
        }
    }
}

/// Appending keeps the users distinct.
pub proof fn lemma_appended_distinct(
    log: Seq<UserHistory>,
    user: Seq<char>,
    queries: Seq<Seq<char>>,
)
    requires
        distinct_users(log),
    ensures
        distinct_users(appended(log, user, queries)),
{
    lemma_position_bound(log, user);
    let after = appended(log, user, queries);
    let p = position(log, user);
    assert forall|i: int, j: int|
        0 <= i < after.len() && 0 <= j < after.len() && i != j implies (#[trigger] after[i]).user
        != (#[trigger] after[j]).user by {
        if p < log.len() {
            assert(after[i].user == log[i].user);
            assert(after[j].user == log[j].user);
        } else {
            if i < log.len() {
                assert(after[i] == log[i]);
            }
            if j < log.len() {
                assert(after[j] == log[j]);
            }
        }
    }
}

/// Appending adds the new searches after those that the user already had,
/// and leaves the searches of every other user as they were.
pub proof fn lemma_appended_history(
    log: Seq<UserHistory>,
    user: Seq<char>,
    queries: Seq<Seq<char>>,
    other: Seq<char>,
)
    ensures
        history_of(appended(log, user, queries), user) == history_of(log, user) + queries,
        other != user ==> history_of(appended(log, user, queries), other) == history_of(
            log,
            other,
        ),
{
    lemma_position_bound(log, user);
    lemma_position_bound(log, other);
    let after = appended(log, user, queries);
    let p = position(log, user);
    if p < log.len() {
        assert forall|j: int| 0 <= j < p implies (#[trigger] after[j]).user != user by {
            assert(after[j] == log[j]);
        }
        lemma_position(after, user, p);
    } else {
        assert forall|j: int| 0 <= j < p implies (#[trigger] after[j]).user != user by {
            assert(after[j] == log[j]);
        }
        lemma_position(after, user, p);
        assert(history_of(log, user) + queries =~= queries);
    }
    if other != user {
        let o = position(log, other);
        if o < log.len() {
            assert forall|j: int| 0 <= j < o implies (#[trigger] after[j]).user != other by {
                if j != p {
                    assert(after[j] == log[j]);
                }
            }
            assert(after[o] == log[o]);
            lemma_position(after, other, o);
        } else {
            assert forall|j: int| 0 <= j < after.len() implies (#[trigger] after[j]).user
                != other by {
                if j < log.len() && j != p {
                    assert(after[j] == log[j]);
                }
            }
            lemma_position(after, other, after.len() as int);
        }
    }
}

/// The JSON string literal of `s`.
///
/// Calls `serde_json::to_string` on a string slice. The contract names the
/// text that the call gives. Writing a string to memory cannot fail, so
/// the fallback to an empty text is never taken.
#[verifier::external_body]
fn quote(s: &str) -> (r: String)
    ensures
        r@ == json_quoted(s@),
{
    serde_json::to_string(s).unwrap_or_default()
}

/// The JSON array of `quoted`, whose items are JSON already.
pub fn array_of(quoted: &Vec<String>) -> (r: String)
    ensures
        r@ == array_text(texts_of(quoted@)),
{
    let mut r = "[".to_owned();
    let inner = join_all(quoted, ",");
    r.append(inner.as_str());
    r.append("]");
    r
}

/// The member of a JSON object with the key `quoted_key` and the value
/// `value`, which are JSON already.
pub fn member_of(quoted_key: &str, value: &str) -> (r: String)
    ensures
        r@ == member_text(quoted_key@, value@),
{
    let mut r = quoted_key.to_owned();
    r.append(":");
    r.append(value);
    r
}

/// The document around `members`, which are JSON already.
pub fn document_of(members: &Vec<String>) -> (r: String)
    ensures
        r@ == document_around(texts_of(members@)),
{
    let mut r = "{\"queries\":{".to_owned();
    let inner = join_all(members, ",");
    r.append(inner.as_str());
    r.append("}}");
    r
}

/// The JSON string literals of `items`, in order.
pub fn quote_all(items: &Vec<String>) -> (r: Vec<String>)
    ensures
        texts_of(r@) == quoted_all(texts_of(items@)),
{
    let mut r: Vec<String> = Vec::new();
    let mut i: usize = 0;
    while i < items.len()
        invariant
            i <= items.len(),
            r@.len() == i,
            forall|j: int| 0 <= j < i ==> (#[trigger] r@[j])@ == json_quoted(items@[j]@),
        decreases items.len() - i,
    {
        r.push(quote(items[i].as_str()));
        i = i + 1;
    }
    proof {
        assert(texts_of(r@) =~= quoted_all(texts_of(items@)));
    }
    r
}

/// The query log.
#[derive(Debug, Clone, PartialEq, Eq)]
pub struct UserQueries {
    entries: Vec<UserEntry>,
}

impl View for UserQueries {
    type V = Seq<UserHistory>;

    /// The entries of the log, in the order in which the users first
    /// appeared.
    closed spec fn view(&self) -> Seq<UserHistory> {
        histories(self.entries@)
    }
}

impl UserQueries {
    /// Whether the log is valid: no user has two entries.
    pub open spec fn well_formed(&self) -> bool {
        distinct_users(self@)
    }

    /// The log without any entry.
    pub fn new() -> (log: UserQueries)
        ensures
            log@ == Seq::<UserHistory>::empty(),
            log.well_formed(),
    {
        let log = UserQueries { entries: Vec::new() };
        assert(log@ =~= Seq::<UserHistory>::empty());
        log
    }

    /// Appends `queries`, in order, to the searches of `user`.
    pub fn extend(&mut self, user: &str, queries: &Vec<String>)
        ensures
            final(self)@ == appended(old(self)@, user@, texts_of(queries@)),
            old(self).well_formed() ==> final(self).well_formed(),
    {
        let ghost log = self@;
        let key = user.to_owned();
        let mut i: usize = 0;
        while i < self.entries.len() && self.entries[i].user != key
            invariant
                i <= self.entries.len(),
                *self == *old(self),
                log == self@,
                key@ == user@,
                forall|j: int| 0 <= j < i ==> (#[trigger] log[j]).user != user@,
            decreases self.entries.len() - i,
        {
            i = i + 1;
        }
        proof {
            lemma_position(log, user@, i as int);
            if distinct_users(log) {
                lemma_appended_distinct(log, user@, texts_of(queries@));
            }
        }
        if i < self.entries.len() {
            let mut k: usize = 0;
            while k < queries.len()
                invariant
                    k <= queries.len(),
                    i < self.entries.len(),
                    self.entries@.len() == old(self).entries@.len(),
                    forall|j: int|
                        0 <= j < self.entries@.len() && j != i ==> self.entries@[j] == old(
                            self,
                        ).entries@[j],
                    self.entries@[i as int].user == old(self).entries@[i as int].user,
                    texts_of(self.entries@[i as int].queries@) == texts_of(
                        old(self).entries@[i as int].queries@,
                    ) + texts_of(queries@).take(k as int),
                decreases queries.len() - k,
            {
                let ghost before = self.entries@[i as int].queries@;
                let query = queries[k].clone();
                self.entries[i].queries.push(query);
                proof {
                    assert(self.entries@[i as int].queries@ == before.push(query));
                    assert(texts_of(before.push(query)) =~= texts_of(before).push(query@));
                    assert(texts_of(queries@).take(k + 1) =~= texts_of(queries@).take(
                        k as int,
                    ).push(queries@[k as int]@));
                    assert(texts_of(self.entries@[i as int].queries@) =~= texts_of(
                        old(self).entries@[i as int].queries@,
                    ) + texts_of(queries@).take(k + 1));
                }
                k = k + 1;
            }
            proof {
                assert(texts_of(queries@).take(queries.len() as int) =~= texts_of(queries@));
                assert(self@ =~= appended(log, user@, texts_of(queries@)));
            }
        } else {
            let mut copy: Vec<String> = Vec::new();
            let mut k: usize = 0;
            while k < queries.len()
                invariant
                    k <= queries.len(),
                    copy@.len() == k,
                    forall|j: int| 0 <= j < k ==> (#[trigger] copy@[j])@ == queries@[j]@,
                decreases queries.len() - k,
            {
                copy.push(queries[k].clone());
                k = k + 1;
            }
            proof {
                assert(texts_of(copy@) =~= texts_of(queries@));
            }
            self.entries.push(UserEntry { user: key, queries: copy });
            proof {
                assert(self@ =~= appended(log, user@, texts_of(queries@)));
            }
        }
    }

    /// Appends one search to the searches of `user`.
    pub fn record(&mut self, user: &str, query: &str)
        ensures
            final(self)@ == appended(old(self)@, user@, seq![query@]),
            old(self).well_formed() ==> final(self).well_formed(),
    {
        let mut one: Vec<String> = Vec::new();
        one.push(query.to_owned());
        proof {
            assert(texts_of(one@) =~= seq![query@]);
        }
        self.extend(user, &one);
    }

    /// The log that holds the searches of `entries`. Where a user comes
    /// twice, the searches of the later entry follow those of the earlier.
    pub fn from_entries(entries: &Vec<UserEntry>) -> (log: UserQueries)
        ensures
            log@ == collected(histories(entries@)),
            log.well_formed(),
    {
        let mut log = UserQueries::new();
        let ghost all = histories(entries@);
        let mut i: usize = 0;
        while i < entries.len()
            invariant
                i <= entries.len(),
                all == histories(entries@),
                log@ == collected(all.take(i as int)),
                log.well_formed(),
            decreases entries.len() - i,
        {
            log.extend(entries[i].user.as_str(), &entries[i].queries);
            proof {
                let next = all.take(i + 1);
                assert(next.drop_last() =~= all.take(i as int));
                assert(next.last() == entries@[i as int]@);
            }
            i = i + 1;
        }
        proof {
            assert(all.take(entries.len() as int) =~= all);
        }
        log
    }

    /// The entries of the log, in order.
    pub fn entries(&self) -> (r: &Vec<UserEntry>)
        ensures
            histories(r@) == self@,
    {
        &self.entries
    }

    /// The searches of `user`, in order: none where the user has no entry.
    pub fn queries_of(&self, user: &str) -> (r: Vec<String>)
        ensures
            texts_of(r@) == history_of(self@, user@),
    {
        let ghost log = self@;
        let key = user.to_owned();
        let mut i: usize = 0;
        while i < self.entries.len() && self.entries[i].user != key
            invariant
                i <= self.entries.len(),
                log == self@,
                key@ == user@,
                forall|j: int| 0 <= j < i ==> (#[trigger] log[j]).user != user@,
            decreases self.entries.len() - i,
        {
            i = i + 1;
        }
        proof {
            lemma_position(log, user@, i as int);
        }
        let mut copy: Vec<String> = Vec::new();
        if i < self.entries.len() {
            let found = &self.entries[i].queries;
            let mut k: usize = 0;
            while k < found.len()
                invariant
                    k <= found.len(),
                    copy@.len() == k,
                    forall|j: int| 0 <= j < k ==> (#[trigger] copy@[j])@ == found@[j]@,
                decreases found.len() - k,
            {
                copy.push(found[k].clone());
                k = k + 1;
            }
            proof {
                assert(texts_of(copy@) =~= texts_of(found@));
            }
        } else {
            proof {
                assert(texts_of(copy@) =~= Seq::<Seq<char>>::empty());
            }
        }
        copy
    }

    /// The JSON document that keeps the log.
    pub fn to_json(&self) -> (r: String)
        ensures
            r@ == document_text(self@),
    {
        let ghost log = self@;
        let mut members: Vec<String> = Vec::new();
        let mut i: usize = 0;
        while i < self.entries.len()
            invariant
                i <= self.entries.len(),
                log == self@,
                members@.len() == i,
                forall|j: int| 0 <= j < i ==> (#[trigger] members@[j])@ == history_text(log[j]),
            decreases self.entries.len() - i,
        {
            let entry = &self.entries[i];
            let key = quote(entry.user.as_str());
            let quoted = quote_all(&entry.queries);
            let array = array_of(&quoted);
            members.push(member_of(key.as_str(), array.as_str()));
            i = i + 1;
        }
        proof {
            assert(texts_of(members@) =~= log.map_values(|h: UserHistory| history_text(h)));
        }
        document_of(&members)
    }
}

/// What was found where the log is kept.
#[derive(Debug, Clone, PartialEq, Eq)]
pub enum Stored {
    /// There is no document yet.
    Missing,
    /// There is a document, but it could not be read.
    Unreadable,
    /// The document is not one of a query log.
    Malformed,
    /// The entries of the document.
    Document(Vec<UserEntry>),
}

/// The log to go on with, given what was found.
#[derive(Debug, Clone, PartialEq, Eq)]
pub struct Restored {
    pub log: UserQueries,
    /// Whether the place where the log is kept has yet to be made.
    pub create_storage: bool,
}

/// The entries to go on with, given what was found: those of the document
/// where there is one, else none.
pub open spec fn restored_entries(stored: Stored) -> Seq<UserHistory> {
    match stored {
        Stored::Document(entries) => collected(histories(entries@)),
        _ => Seq::empty(),
    }
}

/// The log to go on with, given what was found where the log is kept. A
/// document that is missing, unreadable or malformed gives the empty log;
/// storage is to be made only where the document is missing.
pub fn restore(stored: &Stored) -> (r: Restored)
    ensures
        r.log@ == restored_entries(*stored),
        r.log.well_formed(),
        r.create_storage == (*stored is Missing),
{
    match stored {
        Stored::Missing => Restored { log: UserQueries::new(), create_storage: true },
        Stored::Unreadable => Restored { log: UserQueries::new(), create_storage: false },
        Stored::Malformed => Restored { log: UserQueries::new(), create_storage: false },
        Stored::Document(entries) => Restored {
            log: UserQueries::from_entries(entries),
            create_storage: false,
        },
    }
}

/// What recording a search comes to: the log after it, the document to
/// write, and whether the place to write it to has yet to be made.
#[derive(Debug, Clone, PartialEq, Eq)]
pub struct Recorded {
    pub log: UserQueries,
    pub document: String,
    pub create_storage: bool,
}

/// Records the search `query` of `user`, given what was found where the log
/// is kept: the search is appended to the log to go on with, and the whole
/// log is written anew.
pub fn record_query(stored: &Stored, user: &str, query: &str) -> (r: Recorded)
    ensures
        r.log@ == appended(restored_entries(*stored), user@, seq![query@]),
        r.log.well_formed(),
        r.document@ == document_text(r.log@),
        r.create_storage == (*stored is Missing),
{
    let restored = restore(stored);
    let mut log = restored.log;
    log.record(user, query);
    let document = log.to_json();
    Recorded { log, document, create_storage: restored.create_storage }
}

/// The document of a log with one user who made one search.
pub proof fn lemma_first_document(user: Seq<char>, query: Seq<char>)
    ensures
        document_text(appended(Seq::empty(), user, seq![query])) == "{\"queries\":{"@
            + json_quoted(user) + ":["@ + json_quoted(query) + "]}}"@,
{
    reveal_strlit("{\"queries\":{");
    reveal_strlit("}}");
    reveal_strlit("[");
    reveal_strlit("]");
    reveal_strlit(":");
    reveal_strlit(":[");
    reveal_strlit("]}}");
    let h = UserHistory { user, queries: seq![query] };
    let log = appended(Seq::empty(), user, seq![query]);
    assert(log =~= seq![h]);
    let members = log.map_values(|h: UserHistory| history_text(h));
    assert(members =~= seq![history_text(h)]);
    assert(joined(members, ","@) == history_text(h));
    let quoted = quoted_all(h.queries);
    assert(quoted =~= seq![json_quoted(query)]);
    assert(joined(quoted, ","@) == json_quoted(query));
    assert(document_text(log) =~= "{\"queries\":{"@ + json_quoted(user) + ":["@ + json_quoted(
        query,
    ) + "]}}"@);
}

/// The first search that is recorded in an empty log makes the one entry
/// of the log, and the next search of the same user is added to that entry.
pub proof fn lemma_first_and_second_record(user: Seq<char>, first: Seq<char>, second: Seq<char>)
    ensures
        appended(Seq::empty(), user, seq![first]) == seq![
            UserHistory { user, queries: seq![first] },
        ],
        appended(appended(Seq::empty(), user, seq![first]), user, seq![second]) == seq![
            UserHistory { user, queries: seq![first, second] },
        ],
{
    let one = seq![UserHistory { user, queries: seq![first] }];
    assert(appended(Seq::empty(), user, seq![first]) =~= one);
    assert(one.drop_first() =~= Seq::<UserHistory>::empty());
    assert(position(one, user) == 0);
    assert(seq![first] + seq![second] =~= seq![first, second]);
    assert(appended(one, user, seq![second]) =~= seq![
        UserHistory { user, queries: seq![first, second] },
    ]);
}

} // verus!
