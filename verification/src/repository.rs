//! The two tables and the operations the handlers use on them.
//!
//! `ArticleTable` and `CommentTable` say what a store holds and what each
//! operation does to it. `ArticlesRepository` and `CommentsRepository` keep
//! such a table in memory and carry the operations out: the behaviour that the
//! handlers rely on from whatever store stands behind them.

use crate::model::{Article, ArticleView, Comment, CommentView};
use vstd::prelude::*;

verus! {

/// A failure of the data store, with the store's own account of it.
#[derive(Debug, PartialEq, Eq)]
pub struct DbErr {
    pub message: String,
}

impl View for DbErr {
    type V = Seq<char>;

    open spec fn view(&self) -> Seq<char> {
        self.message@
    }
}

impl DbErr {
    /// What a mutation reports when the row it was to change is not there.
    pub open spec fn record_not_found() -> Seq<char> {
        "record not found"@
    }

    /// What an insert reports when the table has handed out its last id.
    pub open spec fn out_of_ids() -> Seq<char> {
        "no id left to assign"@
    }

    /// A failure with the given account.
    pub fn new(message: &str) -> (err: Self)
        ensures
            err@ == message@,
    {
        DbErr { message: message.to_owned() }
    }
}

/// The article table: its rows in the order the store lists them, and the
/// highest id it has handed out so far.
pub struct ArticleTable {
    pub rows: Seq<ArticleView>,
    pub last_id: int,
}

impl ArticleTable {
    /// The table before anything was stored.
    pub open spec fn empty() -> Self {
        ArticleTable { rows: Seq::empty(), last_id: 0 }
    }

    /// Every row carries an id that was handed out, and no two rows share one.
    pub open spec fn wf(self) -> bool {
        &&& 0 <= self.last_id <= i32::MAX
        &&& forall|i: int| 0 <= i < self.rows.len() ==> 1 <= (#[trigger] self.rows[i]).id <= self.last_id
        &&& forall|i: int, j: int|
            0 <= i < j < self.rows.len() ==> (#[trigger] self.rows[i]).id != (#[trigger] self.rows[j]).id
    }

    /// Whether a row with this id is stored.
    pub open spec fn contains(self, id: i32) -> bool {
        exists|i: int| 0 <= i < self.rows.len() && (#[trigger] self.rows[i]).id == id
    }

    /// Where the row with this id stands, if one is stored.
    pub open spec fn position(self, id: i32) -> int {
        choose|i: int| 0 <= i < self.rows.len() && (#[trigger] self.rows[i]).id == id
    }

    /// The row with this id, if one is stored.
    pub open spec fn get(self, id: i32) -> Option<ArticleView> {
        if self.contains(id) {
            Some(self.rows[self.position(id)])
        } else {
            None
        }
    }

    /// Whether an id is left for another row.
    pub open spec fn can_insert(self) -> bool {
        self.last_id < i32::MAX
    }

    /// The row an insert of these fields stores: it gets the id after the
    /// highest handed out so far.
    pub open spec fn next_row(self, title: Seq<char>, body: Seq<char>) -> ArticleView {
        ArticleView { id: (self.last_id + 1) as i32, title, body }
    }

    /// The table after an insert of these fields.
    pub open spec fn insert(self, title: Seq<char>, body: Seq<char>) -> Self {
        ArticleTable { rows: self.rows.push(self.next_row(title, body)), last_id: self.last_id + 1 }
    }

    /// The table after the row with this id got a new title and body.
    pub open spec fn update(self, id: i32, title: Seq<char>, body: Seq<char>) -> Self {
        ArticleTable {
            rows: self.rows.update(self.position(id), ArticleView { id, title, body }),
            last_id: self.last_id,
        }
    }

    /// The table after the row with this id was removed.
    pub open spec fn remove(self, id: i32) -> Self {
        ArticleTable { rows: self.rows.remove(self.position(id)), last_id: self.last_id }
    }

    /// In a well-formed table a row is found at the one place where its id stands.
    pub proof fn lemma_position(self, i: int)
        requires
            self.wf(),
            0 <= i < self.rows.len(),
        ensures
            self.contains(self.rows[i].id),
            self.position(self.rows[i].id) == i,
            self.get(self.rows[i].id) == Some(self.rows[i]),
    {
        let at = self.position(self.rows[i].id);
        assert(self.rows[at].id == self.rows[i].id);
    }

    /// An insert stores the new row under an id that no row had, and leaves
    /// every other row as it was.
    pub proof fn lemma_insert(self, title: Seq<char>, body: Seq<char>)
        requires
            self.wf(),
            self.can_insert(),
        ensures
            self.insert(title, body).wf(),
            self.next_row(title, body).id == self.last_id + 1,
            !self.contains(self.next_row(title, body).id),
            self.insert(title, body).get(self.next_row(title, body).id) == Some(
                self.next_row(title, body),
            ),
            forall|id: i32| self.contains(id) ==> self.insert(title, body).get(id) == self.get(id),
    {
        let after = self.insert(title, body);
        after.lemma_position(self.rows.len() as int);
        assert forall|id: i32| self.contains(id) implies after.get(id) == self.get(id) by {
            let at = self.position(id);
            self.lemma_position(at);
            after.lemma_position(at);
        }
    }

    /// An update changes the row with this id and no other.
    pub proof fn lemma_update(self, id: i32, title: Seq<char>, body: Seq<char>)
        requires
            self.wf(),
            self.contains(id),
        ensures
            self.update(id, title, body).wf(),
            self.update(id, title, body).get(id) == Some(ArticleView { id, title, body }),
            forall|other: i32|
                other != id ==> self.update(id, title, body).get(other) == self.get(other),
            forall|other: i32| self.update(id, title, body).contains(other) == self.contains(other),
    {
        let at = self.position(id);
        let after = self.update(id, title, body);
        assert forall|i: int| 0 <= i < after.rows.len() implies (#[trigger] after.rows[i]).id
            == self.rows[i].id by {}
        after.lemma_position(at);
        assert forall|other: i32| after.contains(other) == self.contains(other) by {
            if self.contains(other) {
                assert(after.rows[self.position(other)].id == other);
            }
            if after.contains(other) {
                assert(self.rows[after.position(other)].id == other);
            }
        }
        assert forall|other: i32| other != id implies after.get(other) == self.get(other) by {
            if self.contains(other) {
                let i = self.position(other);
                self.lemma_position(i);
                after.lemma_position(i);
            }
        }
    }

    /// A delete removes the row with this id and no other.
    pub proof fn lemma_remove(self, id: i32)
        requires
            self.wf(),
            self.contains(id),
        ensures
            self.remove(id).wf(),
            !self.remove(id).contains(id),
            forall|other: i32| other != id ==> self.remove(id).get(other) == self.get(other),
    {
        let at = self.position(id);
        let after = self.remove(id);
        // Every row of `after` is a row of `self` other than the one at `at`.
        assert forall|i: int| 0 <= i < after.rows.len() implies #[trigger] after.rows[i]
            == self.rows[if i < at { i } else { i + 1 }] by {}
        assert forall|other: i32| other != id implies after.get(other) == self.get(other) by {
            if self.contains(other) {
                let i = self.position(other);
                self.lemma_position(i);
                after.lemma_position(if i < at { i } else { i - 1 });
            }
            if after.contains(other) {
                let i = after.position(other);
                assert(self.rows[if i < at { i } else { i + 1 }].id == other);
            }
        }
    }
}

/// Articles kept in memory.
pub struct ArticlesRepository {
    rows: Vec<Article>,
    last_id: i32,
}

impl View for ArticlesRepository {
    type V = ArticleTable;

    closed spec fn view(&self) -> ArticleTable {
        ArticleTable { rows: self.rows.deep_view(), last_id: self.last_id as int }
    }
}

impl ArticlesRepository {
    /// Whether the table kept here is well formed.
    pub open spec fn wf(&self) -> bool {
        self@.wf()
    }

    /// A repository with no article in it.
    pub fn new() -> (repository: Self)
        ensures
            repository@ == ArticleTable::empty(),
            repository.wf(),
    {
        let repository = ArticlesRepository { rows: Vec::new(), last_id: 0 };
        assert(repository@.rows =~= Seq::empty());
        repository
    }

    /// A repository with no article in it whose table has handed out the ids
    /// up to `last_id` already; a negative `last_id` counts as none handed out.
    pub fn starting_after(last_id: i32) -> (repository: Self)
        ensures
            repository@ == (ArticleTable {
                rows: Seq::empty(),
                last_id: if last_id < 0 { 0 } else { last_id as int },
            }),
            repository.wf(),
    {
        let repository = ArticlesRepository {
            rows: Vec::new(),
            last_id: if last_id < 0 { 0 } else { last_id },
        };
        assert(repository@.rows =~= Seq::empty());
        repository
    }

    /// Where the row with this id stands.
    fn index_of(&self, id: i32) -> (found: Option<usize>)
        requires
            self.wf(),
        ensures
            match found {
                Some(i) => i < self.rows.len() && self.rows[i as int].id == id && self@.contains(id)
                    && self@.position(id) == i,
                None => !self@.contains(id),
            },
    {
        let mut i: usize = 0;
        while i < self.rows.len()
            invariant
                self.wf(),
                i <= self.rows.len(),
                forall|j: int| 0 <= j < i ==> (#[trigger] self@.rows[j]).id != id,
            decreases self.rows.len() - i,
        {
            if self.rows[i].id == id {
                proof {
                    self@.lemma_position(i as int);
                }
                return Some(i);
            }
            i += 1;
        }
        None
    }

    /// Every article, in the order the table lists them.
    pub fn find_all(&self) -> (found: Result<Vec<Article>, DbErr>)
        ensures
            found matches Ok(articles) && articles.deep_view() == self@.rows,
    {
        let mut articles: Vec<Article> = Vec::new();
        let mut i: usize = 0;
        while i < self.rows.len()
            invariant
                i <= self.rows.len(),
                articles.len() == i,
                forall|j: int| 0 <= j < i ==> #[trigger] articles[j] == self.rows[j],
            decreases self.rows.len() - i,
        {
            articles.push(self.rows[i].clone());
            i += 1;
        }
        assert(articles.deep_view() =~= self@.rows);
        Ok(articles)
    }

    /// The article with this id, or `None` where no row has it.
    pub fn find_by_id(&self, id: i32) -> (found: Result<Option<Article>, DbErr>)
        requires
            self.wf(),
        ensures
            found matches Ok(article) && article.deep_view() == self@.get(id),
    {
        match self.index_of(id) {
            Some(i) => Ok(Some(self.rows[i].clone())),
            None => Ok(None),
        }
    }

    /// Stores a new article with the title and body of `form_data`. The id in
    /// `form_data` is ignored: the table assigns the next one. Fails only
    /// when no id is left.
    pub fn create(&mut self, form_data: Article) -> (created: Result<Article, DbErr>)
        requires
            old(self).wf(),
        ensures
            final(self).wf(),
            match created {
                Ok(article) => {
                    &&& old(self)@.can_insert()
                    &&& article@ == old(self)@.next_row(form_data@.title, form_data@.body)
                    &&& final(self)@ == old(self)@.insert(form_data@.title, form_data@.body)
                },
                Err(err) => {
                    &&& !old(self)@.can_insert()
                    &&& err@ == DbErr::out_of_ids()
                    &&& final(self)@ == old(self)@
                },
            },
    {
        if self.last_id == i32::MAX {
            return Err(DbErr::new("no id left to assign"));
        }
        let id: i32 = self.last_id + 1;
        let article = Article { id, title: form_data.title, body: form_data.body };
        self.rows.push(article.clone());
        self.last_id = id;
        proof {
            assert(self@.rows =~= old(self)@.insert(form_data@.title, form_data@.body).rows);
            old(self)@.lemma_insert(form_data@.title, form_data@.body);
        }
        Ok(article)
    }

    /// Gives the article with the id of `form_data` its title and body. Fails,
    /// and changes nothing, when no row has that id.
    pub fn update(&mut self, form_data: Article) -> (updated: Result<Article, DbErr>)
        requires
            old(self).wf(),
        ensures
            final(self).wf(),
            match updated {
                Ok(article) => {
                    &&& old(self)@.contains(form_data.id)
                    &&& article@ == form_data@
                    &&& final(self)@ == old(self)@.update(
                        form_data.id,
                        form_data@.title,
                        form_data@.body,
                    )
                },
                Err(err) => {
                    &&& !old(self)@.contains(form_data.id)
                    &&& err@ == DbErr::record_not_found()
                    &&& final(self)@ == old(self)@
                },
            },
    {
        match self.index_of(form_data.id) {
            Some(i) => {
                self.rows.set(i, form_data.clone());
                proof {
                    assert(self@.rows =~= old(self)@.update(
                        form_data.id,
                        form_data@.title,
                        form_data@.body,
                    ).rows);
                    old(self)@.lemma_update(form_data.id, form_data@.title, form_data@.body);
                }
                Ok(form_data)
            },
            None => Err(DbErr::new("record not found")),
        }
    }

    /// Removes the article with this id and reports one row removed. Fails,
    /// and changes nothing, when no row has that id. Comments of the article
    /// are not touched.
    pub fn delete(&mut self, id: i32) -> (deleted: Result<u64, DbErr>)
        requires
            old(self).wf(),
        ensures
            final(self).wf(),
            match deleted {
                Ok(rows_affected) => {
                    &&& old(self)@.contains(id)
                    &&& rows_affected == 1
                    &&& final(self)@ == old(self)@.remove(id)
                },
                Err(err) => {
                    &&& !old(self)@.contains(id)
                    &&& err@ == DbErr::record_not_found()
                    &&& final(self)@ == old(self)@
                },
            },
    {
        match self.index_of(id) {
            Some(i) => {
                self.rows.remove(i);
                proof {
                    assert(self@.rows =~= old(self)@.remove(id).rows);
                    old(self)@.lemma_remove(id);
                }
                Ok(1)
            },
            None => Err(DbErr::new("record not found")),
        }
    }
}

/// The comment table: its rows in the order the store lists them, and the
/// highest id it has handed out so far.
pub struct CommentTable {
    pub rows: Seq<CommentView>,
    pub last_id: int,
}

impl CommentTable {
    /// The table before anything was stored.
    pub open spec fn empty() -> Self {
        CommentTable { rows: Seq::empty(), last_id: 0 }
    }

    /// Every row carries an id that was handed out, and no two rows share one.
    pub open spec fn wf(self) -> bool {
        &&& 0 <= self.last_id <= i32::MAX
        &&& forall|i: int| 0 <= i < self.rows.len() ==> 1 <= (#[trigger] self.rows[i]).id <= self.last_id
        &&& forall|i: int, j: int|
            0 <= i < j < self.rows.len() ==> (#[trigger] self.rows[i]).id != (#[trigger] self.rows[j]).id
    }

    /// Whether a row with this id is stored, under whichever article.
    pub open spec fn contains(self, id: i32) -> bool {
        exists|i: int| 0 <= i < self.rows.len() && (#[trigger] self.rows[i]).id == id
    }

    /// Where the row with this id stands, if one is stored.
    pub open spec fn position(self, id: i32) -> int {
        choose|i: int| 0 <= i < self.rows.len() && (#[trigger] self.rows[i]).id == id
    }

    /// The row addressed by the pair: the one with this id, provided it hangs
    /// under this article. An id that exists under another article addresses
    /// nothing.
    pub open spec fn get(self, article_id: i32, id: i32) -> Option<CommentView> {
        if self.contains(id) && self.rows[self.position(id)].article_id == article_id {
            Some(self.rows[self.position(id)])
        } else {
            None
        }
    }

    /// The rows that hang under this article, in table order.
    pub open spec fn under(self, article_id: i32) -> Seq<CommentView> {
        self.rows.filter(|c: CommentView| c.article_id == article_id)
    }

    /// Whether an id is left for another row.
    pub open spec fn can_insert(self) -> bool {
        self.last_id < i32::MAX
    }

    /// The row an insert under this article stores: it gets the id after the
    /// highest handed out so far, and keeps the article id as given.
    pub open spec fn next_row(self, article_id: i32, body: Seq<char>) -> CommentView {
        CommentView { id: (self.last_id + 1) as i32, article_id, body }
    }

    /// The table after an insert under this article.
    pub open spec fn insert(self, article_id: i32, body: Seq<char>) -> Self {
        CommentTable { rows: self.rows.push(self.next_row(article_id, body)), last_id: self.last_id + 1 }
    }

    /// The table after the row with this id got a new body. Its article stays.
    pub open spec fn update(self, id: i32, body: Seq<char>) -> Self {
        let at = self.position(id);
        CommentTable {
            rows: self.rows.update(at, CommentView { id, article_id: self.rows[at].article_id, body }),
            last_id: self.last_id,
        }
    }

    /// The table after the row with this id was removed.
    pub open spec fn remove(self, id: i32) -> Self {
        CommentTable { rows: self.rows.remove(self.position(id)), last_id: self.last_id }
    }

    /// In a well-formed table a row is found at the one place where its id
    /// stands, and only under its own article.
    pub proof fn lemma_position(self, i: int)
        requires
            self.wf(),
            0 <= i < self.rows.len(),
        ensures
            self.contains(self.rows[i].id),
            self.position(self.rows[i].id) == i,
            self.get(self.rows[i].article_id, self.rows[i].id) == Some(self.rows[i]),
            forall|other: i32|
                other != self.rows[i].article_id ==> self.get(other, self.rows[i].id) is None,
    {
        let at = self.position(self.rows[i].id);
        assert(self.rows[at].id == self.rows[i].id);
    }

    /// An insert stores the new row under an id that no row had, addressed by
    /// the article it was stored under, and leaves every other row as it was.
    pub proof fn lemma_insert(self, article_id: i32, body: Seq<char>)
        requires
            self.wf(),
            self.can_insert(),
        ensures
            self.insert(article_id, body).wf(),
            self.next_row(article_id, body).id == self.last_id + 1,
            !self.contains(self.next_row(article_id, body).id),
            self.insert(article_id, body).get(article_id, self.next_row(article_id, body).id)
                == Some(self.next_row(article_id, body)),
            forall|other: i32|
                other != article_id ==> self.insert(article_id, body).get(
                    other,
                    self.next_row(article_id, body).id,
                ) is None,
            forall|under: i32, id: i32|
                self.contains(id) ==> self.insert(article_id, body).get(under, id) == self.get(
                    under,
                    id,
                ),
    {
        let after = self.insert(article_id, body);
        after.lemma_position(self.rows.len() as int);
        assert forall|under: i32, id: i32| self.contains(id) implies after.get(under, id)
            == self.get(under, id) by {
            let at = self.position(id);
            self.lemma_position(at);
            after.lemma_position(at);
        }
    }

    /// An update changes the body of the row with this id and nothing else:
    /// the row stays under its article, and every other row stays as it was.
    pub proof fn lemma_update(self, id: i32, body: Seq<char>)
        requires
            self.wf(),
            self.contains(id),
        ensures
            self.update(id, body).wf(),
            self.update(id, body).contains(id),
            self.update(id, body).rows[self.update(id, body).position(id)] == (CommentView {
                id,
                article_id: self.rows[self.position(id)].article_id,
                body,
            }),
            forall|under: i32, other: i32|
                other != id ==> self.update(id, body).get(under, other) == self.get(under, other),
            forall|under: i32|
                (self.update(id, body).get(under, id) is Some) == (self.get(under, id) is Some),
    {
        let at = self.position(id);
        let after = self.update(id, body);
        assert forall|i: int| 0 <= i < after.rows.len() implies (#[trigger] after.rows[i]).id
            == self.rows[i].id by {}
        after.lemma_position(at);
        self.lemma_position(at);
        assert forall|under: i32, other: i32| other != id implies after.get(under, other)
            == self.get(under, other) by {
            if self.contains(other) {
                let i = self.position(other);
                self.lemma_position(i);
                after.lemma_position(i);
            }
            if after.contains(other) {
                assert(self.rows[after.position(other)].id == other);
            }
        }
    }

    /// A delete removes the row with this id and no other.
    pub proof fn lemma_remove(self, id: i32)
        requires
            self.wf(),
            self.contains(id),
        ensures
            self.remove(id).wf(),
            !self.remove(id).contains(id),
            forall|under: i32| self.remove(id).get(under, id) is None,
            forall|under: i32, other: i32|
                other != id ==> self.remove(id).get(under, other) == self.get(under, other),
    {
        let at = self.position(id);
        let after = self.remove(id);
        // Every row of `after` is a row of `self` other than the one at `at`.
        assert forall|i: int| 0 <= i < after.rows.len() implies #[trigger] after.rows[i]
            == self.rows[if i < at { i } else { i + 1 }] by {}
        assert forall|under: i32, other: i32| other != id implies after.get(under, other)
            == self.get(under, other) by {
            if self.contains(other) {
                let i = self.position(other);
                self.lemma_position(i);
                after.lemma_position(if i < at { i } else { i - 1 });
            }
            if after.contains(other) {
                let i = after.position(other);
                assert(self.rows[if i < at { i } else { i + 1 }].id == other);
            }
        }
    }
}

/// Comments kept in memory.
pub struct CommentsRepository {
    rows: Vec<Comment>,
    last_id: i32,
}

impl View for CommentsRepository {
    type V = CommentTable;

    closed spec fn view(&self) -> CommentTable {
        CommentTable { rows: self.rows.deep_view(), last_id: self.last_id as int }
    }
}

impl CommentsRepository {
    /// Whether the table kept here is well formed.
    pub open spec fn wf(&self) -> bool {
        self@.wf()
    }

    /// A repository with no comment in it.
    pub fn new() -> (repository: Self)
        ensures
            repository@ == CommentTable::empty(),
            repository.wf(),
    {
        let repository = CommentsRepository { rows: Vec::new(), last_id: 0 };
        assert(repository@.rows =~= Seq::empty());
        repository
    }

    /// A repository with no comment in it whose table has handed out the ids
    /// up to `last_id` already; a negative `last_id` counts as none handed out.
    pub fn starting_after(last_id: i32) -> (repository: Self)
        ensures
            repository@ == (CommentTable {
                rows: Seq::empty(),
                last_id: if last_id < 0 { 0 } else { last_id as int },
            }),
            repository.wf(),
    {
        let repository = CommentsRepository {
            rows: Vec::new(),
            last_id: if last_id < 0 { 0 } else { last_id },
        };
        assert(repository@.rows =~= Seq::empty());
        repository
    }

    /// Where the row addressed by the pair stands.
    fn index_of(&self, article_id: i32, id: i32) -> (found: Option<usize>)
        requires
            self.wf(),
        ensures
            match found {
                Some(i) => i < self.rows.len() && self.rows[i as int].id == id && self@.position(id) == i
                    && self@.get(article_id, id) == Some(self.rows[i as int]@),
                None => self@.get(article_id, id) is None,
            },
    {
        let mut i: usize = 0;
        while i < self.rows.len()
            invariant
                self.wf(),
                i <= self.rows.len(),
                forall|j: int| 0 <= j < i ==> (#[trigger] self@.rows[j]).id != id,
            decreases self.rows.len() - i,
        {
            if self.rows[i].id == id {
                proof {
                    self@.lemma_position(i as int);
                }
                if self.rows[i].article_id == article_id {
                    return Some(i);
                } else {
                    return None;
                }
            }
            i += 1;
        }
        None
    }

    /// The comments that hang under this article, in the order the table
    /// lists them.
    pub fn find_all_by_article_id(&self, article_id: i32) -> (found: Result<Vec<Comment>, DbErr>)
        ensures
            found matches Ok(comments) && comments.deep_view() == self@.under(article_id),
    {
        let ghost keep = |c: CommentView| c.article_id == article_id;
        let mut comments: Vec<Comment> = Vec::new();
        let mut i: usize = 0;
        proof {
            reveal(Seq::filter);
            assert(comments.deep_view() =~= self@.rows.take(0).filter(keep));
        }
        while i < self.rows.len()
            invariant
                i <= self.rows.len(),
                keep == |c: CommentView| c.article_id == article_id,
                comments.deep_view() == self@.rows.take(i as int).filter(keep),
            decreases self.rows.len() - i,
        {
            let ghost before = comments.deep_view();
            if self.rows[i].article_id == article_id {
                comments.push(self.rows[i].clone());
                assert(comments.deep_view() =~= before.push(self@.rows[i as int]));
            }
            proof {
                // The rows seen so far are those seen before, and this one.
                reveal(Seq::filter);
                let seen = self@.rows.take(i as int + 1);
                assert(seen.drop_last() =~= self@.rows.take(i as int));
            }
            i += 1;
        }
        assert(self@.rows.take(self.rows.len() as int) =~= self@.rows);
        Ok(comments)
    }

    /// The comment addressed by the pair, or `None` where no row has this id
    /// under this article.
    pub fn find_by_article_id_and_id(&self, article_id: i32, id: i32) -> (found: Result<
        Option<Comment>,
        DbErr,
    >)
        requires
            self.wf(),
        ensures
            found matches Ok(comment) && comment.deep_view() == self@.get(article_id, id),
    {
        match self.index_of(article_id, id) {
            Some(i) => Ok(Some(self.rows[i].clone())),
            None => Ok(None),
        }
    }

    /// Stores a new comment with the article id and body of `form_data`. The
    /// id in `form_data` is ignored: the table assigns the next one. Whether
    /// the article exists is not looked at here. Fails only when no id is
    /// left.
    pub fn create(&mut self, form_data: Comment) -> (created: Result<Comment, DbErr>)
        requires
            old(self).wf(),
        ensures
            final(self).wf(),
            match created {
                Ok(comment) => {
                    &&& old(self)@.can_insert()
                    &&& comment@ == old(self)@.next_row(form_data.article_id, form_data@.body)
                    &&& final(self)@ == old(self)@.insert(form_data.article_id, form_data@.body)
                },
                Err(err) => {
                    &&& !old(self)@.can_insert()
                    &&& err@ == DbErr::out_of_ids()
                    &&& final(self)@ == old(self)@
                },
            },
    {
        if self.last_id == i32::MAX {
            return Err(DbErr::new("no id left to assign"));
        }
        let id: i32 = self.last_id + 1;
        let comment = Comment { id, article_id: form_data.article_id, body: form_data.body };
        self.rows.push(comment.clone());
        self.last_id = id;
        proof {
            assert(self@.rows =~= old(self)@.insert(form_data.article_id, form_data@.body).rows);
            old(self)@.lemma_insert(form_data.article_id, form_data@.body);
        }
        Ok(comment)
    }

    /// Gives the comment addressed by the article id and id of `form_data`
    /// its body. Fails, and changes nothing, when the pair addresses no row.
    pub fn update(&mut self, form_data: Comment) -> (updated: Result<Comment, DbErr>)
        requires
            old(self).wf(),
        ensures
            final(self).wf(),
            match updated {
                Ok(comment) => {
                    &&& old(self)@.get(form_data.article_id, form_data.id) is Some
                    &&& comment@ == form_data@
                    &&& final(self)@ == old(self)@.update(form_data.id, form_data@.body)
                },
                Err(err) => {
                    &&& old(self)@.get(form_data.article_id, form_data.id) is None
                    &&& err@ == DbErr::record_not_found()
                    &&& final(self)@ == old(self)@
                },
            },
    {
        match self.index_of(form_data.article_id, form_data.id) {
            Some(i) => {
                self.rows.set(i, form_data.clone());
                proof {
                    assert(self@.rows =~= old(self)@.update(form_data.id, form_data@.body).rows);
                    old(self)@.lemma_update(form_data.id, form_data@.body);
                }
                Ok(form_data)
            },
            None => Err(DbErr::new("record not found")),
        }
    }

    /// Removes the comment addressed by the pair and reports one row removed.
    /// Fails, and changes nothing, when the pair addresses no row.
    pub fn delete(&mut self, article_id: i32, id: i32) -> (deleted: Result<u64, DbErr>)
        requires
            old(self).wf(),
        ensures
            final(self).wf(),
            match deleted {
                Ok(rows_affected) => {
                    &&& old(self)@.get(article_id, id) is Some
                    &&& rows_affected == 1
                    &&& final(self)@ == old(self)@.remove(id)
                },
                Err(err) => {
                    &&& old(self)@.get(article_id, id) is None
                    &&& err@ == DbErr::record_not_found()
                    &&& final(self)@ == old(self)@
                },
            },
    {
        match self.index_of(article_id, id) {
            Some(i) => {
                self.rows.remove(i);
                proof {
                    assert(self@.rows =~= old(self)@.remove(id).rows);
                    old(self)@.lemma_remove(id);
                }
                Ok(1)
            },
            None => Err(DbErr::new("record not found")),
        }
    }
}

} // verus!
