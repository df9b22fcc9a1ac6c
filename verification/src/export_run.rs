//! The decisions of an export run around its pages: which objects it covers,
//! how a table is read page by page, what it reports, how the output
//! directory is archived, and how the run ends.
use vstd::prelude::*;
use crate::config::{CompressType, DbType};
use crate::progress::{EventView, RunProgressEvent};
use crate::sql_text::{clip_text, clipped, contains_string, quote_ident, quoted_ident};
use crate::text::{
    decimal, lemma_views_push, parse_usize, parse_usize_seq, push_str, to_owned, trim, trim_seq,
    usize_to_string, views,
};

verus! {

// ---------------------------------------------------------------------
// Choosing the objects
// ---------------------------------------------------------------------

#[verifier::external_type_specification]
#[verifier::external_body]
pub struct ExRegex(regex::Regex);

/// The message `regex::Regex::new` fails with for a pattern, or `None` when
/// the pattern compiles.
pub uninterp spec fn regex_build_error(pattern: Seq<char>) -> Option<Seq<char>>;

/// Whether the compiled pattern matches somewhere in the text
/// (`regex::Regex::is_match`).
pub uninterp spec fn regex_finds(pattern: Seq<char>, haystack: Seq<char>) -> bool;

/// A compiled object-name pattern, with the text it was compiled from.
pub struct ObjectPattern {
    re: regex::Regex,
    source: Ghost<Seq<char>>,
}

impl ObjectPattern {
    pub closed spec fn pattern(&self) -> Seq<char> {
        self.source@
    }
}

/// Compiles with `regex::Regex::new`. Claimed: the call fails exactly when
/// the pattern has no compiled form (named by `regex_build_error`), and then
/// the message is that error's text; on success the value holds the pattern
/// it was compiled from.
#[verifier::external_body]
fn compile_pattern(pattern: &str) -> (r: Result<ObjectPattern, String>)
    ensures
        r is Ok <==> regex_build_error(pattern@) is None,
        r matches Ok(p) ==> p.pattern() == pattern@,
        r matches Err(m) ==> regex_build_error(pattern@) == Some(m@),
{
    match regex::Regex::new(pattern) {
        Ok(re) => Ok(ObjectPattern { re, source: Ghost(pattern@) }),
        Err(e) => Err(e.to_string()),
    }
}

/// `regex::Regex::is_match`. Claimed: the answer is the one `regex_finds`
/// names for the pattern and the text; nothing more is said of it.
#[verifier::external_body]
fn pattern_finds(p: &ObjectPattern, haystack: &str) -> (r: bool)
    ensures
        r == regex_finds(p.pattern(), haystack@),
{
    p.re.is_match(haystack)
}

/// The names the pattern matches, in their order.
pub open spec fn matching_names(names: Seq<Seq<char>>, pattern: Seq<char>) -> Seq<Seq<char>> {
    names.filter(|n: Seq<char>| regex_finds(pattern, n))
}

/// The objects whose names match a regular expression, or the message for a
/// pattern that does not compile.
pub fn select_objects_by_pattern(all: &Vec<String>, pattern: &str) -> (r: Result<
    Vec<String>,
    String,
>)
    ensures
        r is Ok <==> regex_build_error(pattern@) is None,
        r matches Ok(v) ==> views(v@) == matching_names(views(all@), pattern@),
        r matches Err(m) ==> m@ == "invalid --objects regex: "@ + regex_build_error(
            pattern@,
        )->0,
{
    let re = match compile_pattern(pattern) {
        Ok(p) => p,
        Err(m) => {
            let mut msg = to_owned("invalid --objects regex: ");
            push_str(&mut msg, m.as_str());
            return Err(msg);
        },
    };
    let n = all.len();
    let mut out: Vec<String> = Vec::new();
    let mut i: usize = 0;
    while i < n
        invariant
            n == all@.len(),
            i <= n,
            re.pattern() == pattern@,
            views(out@) == matching_names(views(all@).take(i as int), pattern@),
        decreases n - i,
    {
        let ghost t1 = views(all@).take(i + 1);
        assert(t1.drop_last() =~= views(all@).take(i as int));
        assert(t1.last() == all@[i as int]@);
        proof {
            reveal(Seq::filter);
        }
        if pattern_finds(&re, all[i].as_str()) {
            let t = to_owned(all[i].as_str());
            proof {
                lemma_views_push(out@, t);
            }
            out.push(t);
        }
        i = i + 1;
    }
    assert(views(all@).take(n as int) =~= views(all@));
    Ok(out)
}

/// The names that the list names, in their order.
pub open spec fn listed_names_in(names: Seq<Seq<char>>, listed: Seq<Seq<char>>) -> Seq<Seq<char>> {
    names.filter(|n: Seq<char>| listed.contains(n))
}

/// The objects named in a list file's names.
pub fn select_objects_by_list(all: &Vec<String>, listed: &Vec<String>) -> (r: Vec<String>)
    ensures
        views(r@) == listed_names_in(views(all@), views(listed@)),
{
    let n = all.len();
    let mut out: Vec<String> = Vec::new();
    let mut i: usize = 0;
    while i < n
        invariant
            n == all@.len(),
            i <= n,
            views(out@) == listed_names_in(views(all@).take(i as int), views(listed@)),
        decreases n - i,
    {
        let ghost t1 = views(all@).take(i + 1);
        assert(t1.drop_last() =~= views(all@).take(i as int));
        assert(t1.last() == all@[i as int]@);
        proof {
            reveal(Seq::filter);
        }
        if contains_string(listed, all[i].as_str()) {
            let t = to_owned(all[i].as_str());
            proof {
                lemma_views_push(out@, t);
            }
            out.push(t);
        }
        i = i + 1;
    }
    assert(views(all@).take(n as int) =~= views(all@));
    out
}

// ---------------------------------------------------------------------
// Reading a table page by page
// ---------------------------------------------------------------------

/// The page of a table a step reads: where it starts and how many rows it
/// asks for.
#[derive(Copy, Clone, Debug)]
pub struct PagePlan {
    pub page_index: usize,
    pub offset: usize,
    pub limit: usize,
}

/// How far the export of one table has come.
#[derive(Copy, Clone, Debug)]
pub struct TablePager {
    pub recsize: Option<usize>,
    pub page_size: usize,
    pub single_page: bool,
    pub page_index: usize,
    pub total_rows: usize,
    pub finished: bool,
}

/// The rows still wanted: up to the row limit when there is one, else a
/// whole page.
pub open spec fn rows_wanted(recsize: Option<usize>, page_size: nat, total: nat) -> nat {
    match recsize {
        Some(max) => if max >= total {
            (max - total) as nat
        } else {
            0
        },
        None => page_size,
    }
}

/// The rows the next page asks for: a whole page, or fewer when the row
/// limit leaves fewer.
pub open spec fn page_limit(recsize: Option<usize>, page_size: nat, total: nat) -> nat {
    let w = rows_wanted(recsize, page_size, total);
    if page_size <= w {
        page_size
    } else {
        w
    }
}

/// What asking for the next page does: the pager, and the page it asks
/// for (none once the export is finished or no rows are wanted any more).
pub open spec fn after_plan(p: TablePager) -> (TablePager, Option<PagePlan>) {
    if p.finished {
        (p, None)
    } else if rows_wanted(p.recsize, p.page_size as nat, p.total_rows as nat) == 0 {
        (TablePager { finished: true, ..p }, None)
    } else {
        (
            p,
            Some(
                PagePlan {
                    page_index: p.page_index,
                    offset: ((p.page_index - 1) * p.page_size) as usize,
                    limit: page_limit(p.recsize, p.page_size as nat, p.total_rows as nat) as usize,
                },
            ),
        )
    }
}

/// What taking note of a page that returned `rows` of `limit` does.
pub open spec fn after_record(p: TablePager, rows: usize, limit: usize) -> TablePager {
    let done = rows == 0 || p.single_page || rows < limit;
    TablePager {
        total_rows: (p.total_rows + rows) as usize,
        finished: done,
        page_index: if done {
            p.page_index
        } else {
            (p.page_index + 1) as usize
        },
        ..p
    }
}

/// A table export that has not read a page yet.
pub open spec fn started(recsize: Option<usize>, page_size: usize, page_no: Option<usize>) -> TablePager {
    TablePager {
        recsize,
        page_size,
        single_page: page_no is Some,
        page_index: match page_no {
            Some(p) => p,
            None => 1,
        },
        total_rows: 0,
        finished: false,
    }
}

impl TablePager {
    /// Within the row limit: no more rows exported than it allows.
    pub open spec fn within_limit(&self) -> bool {
        self.recsize matches Some(max) ==> self.total_rows <= max
    }

    /// A table export that starts at the requested page, or at the first.
    pub fn start(recsize: Option<usize>, page_size: usize, page_no: Option<usize>) -> (r: TablePager)
        ensures
            r.recsize == recsize,
            r.page_size == page_size,
            r.single_page == (page_no is Some),
            r.page_index == match page_no {
                Some(p) => p,
                None => 1,
            },
            r.total_rows == 0,
            !r.finished,
            r.within_limit(),
            r == started(recsize, page_size, page_no),
    {
        TablePager {
            recsize,
            page_size,
            single_page: page_no.is_some(),
            page_index: match page_no {
                Some(p) => p,
                None => 1,
            },
            total_rows: 0,
            finished: false,
        }
    }

    /// The page to read next, or `None` when no rows are wanted any more (the
    /// export is then finished).
    pub fn next_page(&mut self) -> (r: Option<PagePlan>)
        requires
            old(self).page_index >= 1,
            (old(self).page_index - 1) * old(self).page_size <= usize::MAX,
        ensures
            final(self).recsize == old(self).recsize,
            final(self).page_size == old(self).page_size,
            final(self).single_page == old(self).single_page,
            final(self).page_index == old(self).page_index,
            final(self).total_rows == old(self).total_rows,
            final(self).finished == (old(self).finished || rows_wanted(
                old(self).recsize,
                old(self).page_size as nat,
                old(self).total_rows as nat,
            ) == 0),
            r is None <==> final(self).finished,
            (*final(self), r) == after_plan(*old(self)),
            r matches Some(p) ==> {
                &&& p.page_index == old(self).page_index
                &&& p.offset == (old(self).page_index - 1) * old(self).page_size
                &&& p.limit == if old(self).page_size <= rows_wanted(
                    old(self).recsize,
                    old(self).page_size as nat,
                    old(self).total_rows as nat,
                ) {
                    old(self).page_size as nat
                } else {
                    rows_wanted(
                        old(self).recsize,
                        old(self).page_size as nat,
                        old(self).total_rows as nat,
                    )
                }
            },
    {
        if self.finished {
            return None;
        }
        let remaining: usize = match self.recsize {
            Some(max) => if max >= self.total_rows {
                max - self.total_rows
            } else {
                0
            },
            None => self.page_size,
        };
        if remaining == 0 {
            self.finished = true;
            return None;
        }
        let limit = if self.page_size <= remaining {
            self.page_size
        } else {
            remaining
        };
        let offset = (self.page_index - 1) * self.page_size;
        Some(PagePlan { page_index: self.page_index, offset, limit })
    }

    /// Takes note of a page that returned `rows` of the `limit` it asked
    /// for: the export ends on an empty page, after a requested single page,
    /// or on a page shorter than asked; otherwise it goes on to the next
    /// page. Pages that return no more rows than they asked for keep the
    /// export within its row limit.
    pub fn record_page(&mut self, rows: usize, limit: usize)
        requires
            old(self).total_rows + rows <= usize::MAX,
            old(self).page_index < usize::MAX,
            !old(self).finished,
            old(self).recsize matches Some(max) ==> limit <= rows_wanted(
                old(self).recsize,
                old(self).page_size as nat,
                old(self).total_rows as nat,
            ),
        ensures
            final(self).recsize == old(self).recsize,
            final(self).page_size == old(self).page_size,
            final(self).single_page == old(self).single_page,
            final(self).total_rows == old(self).total_rows + rows,
            final(self).finished == (rows == 0 || old(self).single_page || rows < limit),
            final(self).page_index == if final(self).finished {
                old(self).page_index
            } else {
                (old(self).page_index + 1) as usize
            },
            old(self).within_limit() && rows <= limit ==> final(self).within_limit(),
            *final(self) == after_record(*old(self), rows, limit),
    {
        self.total_rows = self.total_rows + rows;
        if rows == 0 || self.single_page || rows < limit {
            self.finished = true;
        } else {
            self.page_index = self.page_index + 1;
        }
    }
}

/// A table export stays within its row limit from page to page, whatever
/// the pages return, as long as no page returns more rows than it asked for.
pub proof fn law_pages_stay_within_limit(
    before: TablePager,
    plan_limit: nat,
    rows: nat,
)
    requires
        before.within_limit(),
        !before.finished,
        plan_limit <= rows_wanted(before.recsize, before.page_size as nat, before.total_rows as nat),
        rows <= plan_limit,
    ensures
        before.recsize matches Some(max) ==> before.total_rows + rows <= max,
{
}

/// The pages a table export asks for, in order, when the pages it reads
/// return `rows` in turn: each page the pager plans, until it plans none
/// or no answer is left.
pub open spec fn table_pages(p: TablePager, rows: Seq<usize>) -> Seq<PagePlan>
    decreases rows.len(),
{
    match after_plan(p).1 {
        None => seq![],
        Some(plan) => if rows.len() == 0 {
            seq![plan]
        } else {
            seq![plan] + table_pages(
                after_record(after_plan(p).0, rows[0], plan.limit),
                rows.drop_first(),
            )
        },
    }
}

/// The rows returned in all.
pub open spec fn rows_total(rows: Seq<usize>) -> nat
    decreases rows.len(),
{
    if rows.len() == 0 {
        0
    } else {
        rows[0] as nat + rows_total(rows.drop_first())
    }
}

/// A pager part-way through a whole-table export.
pub open spec fn paging_all(p: TablePager) -> bool {
    &&& !p.finished
    &&& !p.single_page
    &&& p.page_size >= 1
    &&& p.page_index >= 1
}

proof fn lemma_rows_total_take(rows: Seq<usize>, j: int)
    requires
        0 < j <= rows.len(),
    ensures
        rows_total(rows.take(j)) == rows[0] + rows_total(rows.drop_first().take(j - 1)),
{
    assert(rows.take(j).drop_first() =~= rows.drop_first().take(j - 1));
}

proof fn lemma_rows_total_bound(rows: Seq<usize>, j: int)
    requires
        0 <= j <= rows.len(),
    ensures
        rows_total(rows.take(j)) <= rows_total(rows),
    decreases rows.len(),
{
    if j > 0 {
        lemma_rows_total_take(rows, j);
        lemma_rows_total_bound(rows.drop_first(), j - 1);
    } else {
        assert(rows.take(0) =~= Seq::<usize>::empty());
    }
}

/// The pages planned from a pager part-way through a whole-table export.
proof fn lemma_pages_from(p: TablePager, rows: Seq<usize>)
    requires
        paging_all(p),
        (p.page_index + rows.len()) * p.page_size <= usize::MAX,
        p.page_index + rows.len() < usize::MAX,
        p.total_rows + rows_total(rows) <= usize::MAX,
        forall|j: int|
            0 <= j < table_pages(p, rows).len() && j < rows.len() ==> rows[j]
                <= #[trigger] table_pages(p, rows)[j].limit,
    ensures
        table_pages(p, rows).len() <= rows.len() + 1,
        forall|j: int|
            0 <= j < table_pages(p, rows).len() ==> {
                &&& (#[trigger] table_pages(p, rows)[j]).page_index == p.page_index + j
                &&& table_pages(p, rows)[j].offset == (p.page_index - 1 + j) * p.page_size
                &&& table_pages(p, rows)[j].limit == page_limit(
                    p.recsize,
                    p.page_size as nat,
                    (p.total_rows + rows_total(rows.take(j))) as nat,
                )
                &&& table_pages(p, rows)[j].limit > 0
            },
        forall|j: int|
            0 <= j && j + 1 < table_pages(p, rows).len() ==> rows[j] == (#[trigger] table_pages(
                p,
                rows,
            )[j]).limit,
        table_pages(p, rows).len() == 0 ==> rows_wanted(
            p.recsize,
            p.page_size as nat,
            p.total_rows as nat,
        ) == 0,
        0 < table_pages(p, rows).len() <= rows.len() ==> {
            let j = table_pages(p, rows).len() - 1;
            ||| rows[j] < table_pages(p, rows)[j].limit
            ||| rows_wanted(
                p.recsize,
                p.page_size as nat,
                (p.total_rows + rows_total(rows.take(j + 1))) as nat,
            ) == 0
        },
        p.recsize matches Some(max) ==> (p.total_rows <= max ==> p.total_rows + rows_total(
            rows.take(
                if table_pages(p, rows).len() <= rows.len() {
                    table_pages(p, rows).len() as int
                } else {
                    rows.len() as int
                },
            ),
        ) <= max),
    decreases rows.len(),
{
    let pages = table_pages(p, rows);
    let w = rows_wanted(p.recsize, p.page_size as nat, p.total_rows as nat);
    assert(rows.take(0) =~= Seq::<usize>::empty());
    if w == 0 {
        assert(pages.len() == 0);
    } else {
        let plan = after_plan(p).1->0;
        assert(plan.limit == page_limit(p.recsize, p.page_size as nat, p.total_rows as nat));
        assert((p.page_index - 1) * p.page_size <= (p.page_index + rows.len()) * p.page_size)
            by (nonlinear_arith)
            requires
                p.page_index >= 1,
        ;
        if rows.len() == 0 {
            assert(pages =~= seq![plan]);
        } else {
            let q = after_record(p, rows[0], plan.limit);
            let tail = rows.drop_first();
            let rest = table_pages(q, tail);
            assert(pages =~= seq![plan] + rest);
            assert(rows[0] <= plan.limit) by {
                assert(pages[0] == plan);
            }
            assert(rows_total(rows) == rows[0] + rows_total(tail));
            if q.finished {
                assert(rest.len() == 0);
                lemma_rows_total_take(rows, 1);
                assert(tail.take(0) =~= Seq::<usize>::empty());
            } else {
                assert(paging_all(q));
                assert((q.page_index + tail.len()) * q.page_size == (p.page_index + rows.len())
                    * p.page_size);
                assert forall|j: int|
                    0 <= j < rest.len() && j < tail.len() implies tail[j]
                        <= #[trigger] rest[j].limit by {
                    assert(pages[j + 1] == rest[j]);
                    assert(tail[j] == rows[j + 1]);
                }
                lemma_pages_from(q, tail);
                assert forall|j: int| 0 <= j < pages.len() implies {
                    &&& (#[trigger] pages[j]).page_index == p.page_index + j
                    &&& pages[j].offset == (p.page_index - 1 + j) * p.page_size
                    &&& pages[j].limit == page_limit(
                        p.recsize,
                        p.page_size as nat,
                        (p.total_rows + rows_total(rows.take(j))) as nat,
                    )
                    &&& pages[j].limit > 0
                } by {
                    if j > 0 {
                        assert(pages[j] == rest[j - 1]);
                        lemma_rows_total_take(rows, j);
                    }
                }
                assert forall|j: int| 0 <= j && j + 1 < pages.len() implies rows[j]
                    == (#[trigger] pages[j]).limit by {
                    if j > 0 {
                        assert(pages[j] == rest[j - 1]);
                        assert(rows[j] == tail[j - 1]);
                    }
                }
                if 0 < pages.len() <= rows.len() {
                    let j = pages.len() - 1;
                    if j > 0 {
                        assert(pages[j] == rest[j - 1]);
                        assert(rows[j] == tail[j - 1]);
                        lemma_rows_total_take(rows, j + 1);
                    }
                }
                if p.recsize is Some && p.total_rows <= p.recsize->0 {
                    let k = if pages.len() <= rows.len() {
                        pages.len() as int
                    } else {
                        rows.len() as int
                    };
                    lemma_rows_total_take(rows, k);
                }
            }
        }
    }
}

/// Exporting a whole table: the pages asked for are the first, second,
/// third page and so on, each at the offset of the pages before it, each
/// asking for a whole page or for what the row limit leaves after the rows
/// returned so far. Every page but the last returned all it asked for; the
/// export stops after a page that returned fewer rows than it asked for
/// (none at all among them) or once the row limit is reached, and, as long
/// as no page returns more rows than it asked for, it never exports more
/// rows than the limit.
pub proof fn law_whole_table_pages(recsize: Option<usize>, page_size: usize, rows: Seq<usize>)
    requires
        page_size >= 1,
        (rows.len() + 1) * page_size <= usize::MAX,
        rows.len() + 1 < usize::MAX,
        rows_total(rows) <= usize::MAX,
        forall|j: int|
            0 <= j < table_pages(started(recsize, page_size, None), rows).len() && j < rows.len()
                ==> rows[j] <= #[trigger] table_pages(
                started(recsize, page_size, None),
                rows,
            )[j].limit,
    ensures
        forall|j: int|
            0 <= j < table_pages(started(recsize, page_size, None), rows).len() ==> {
                &&& (#[trigger] table_pages(started(recsize, page_size, None), rows)[j]).page_index
                    == j + 1
                &&& table_pages(started(recsize, page_size, None), rows)[j].offset == j * page_size
                &&& table_pages(started(recsize, page_size, None), rows)[j].limit == page_limit(
                    recsize,
                    page_size as nat,
                    rows_total(rows.take(j)),
                )
                &&& table_pages(started(recsize, page_size, None), rows)[j].limit > 0
            },
        forall|j: int|
            0 <= j && j + 1 < table_pages(started(recsize, page_size, None), rows).len() ==> rows[j]
                == (#[trigger] table_pages(started(recsize, page_size, None), rows)[j]).limit,
        table_pages(started(recsize, page_size, None), rows).len() == 0 <==> recsize == Some(
            0usize,
        ),
        0 < table_pages(started(recsize, page_size, None), rows).len() <= rows.len() ==> {
            let j = table_pages(started(recsize, page_size, None), rows).len() - 1;
            ||| rows[j] < table_pages(started(recsize, page_size, None), rows)[j].limit
            ||| rows_wanted(recsize, page_size as nat, rows_total(rows.take(j + 1))) == 0
        },
        recsize matches Some(max) ==> rows_total(
            rows.take(
                if table_pages(started(recsize, page_size, None), rows).len() <= rows.len() {
                    table_pages(started(recsize, page_size, None), rows).len() as int
                } else {
                    rows.len() as int
                },
            ),
        ) <= max,
{
    let p = started(recsize, page_size, None);
    assert(paging_all(p));
    lemma_pages_from(p, rows);
    assert(rows.take(0) =~= Seq::<usize>::empty());
    if table_pages(p, rows).len() == 0 {
        assert(recsize == Some(0usize));
    }
    if recsize == Some(0usize) {
        assert(after_plan(p).1 is None);
    }
}

/// Exporting one requested page: the export asks for that page alone, at
/// the offset of the pages before it, for a whole page or for what the row
/// limit allows, whatever the page returns; with a row limit of zero it
/// asks for nothing.
pub proof fn law_single_page(
    recsize: Option<usize>,
    page_size: usize,
    page_no: usize,
    rows: Seq<usize>,
)
    requires
        page_size >= 1,
        page_no >= 1,
        (page_no - 1) * page_size <= usize::MAX,
        rows.len() >= 1,
    ensures
        table_pages(started(recsize, page_size, Some(page_no)), rows) == if recsize == Some(
            0usize,
        ) {
            Seq::<PagePlan>::empty()
        } else {
            seq![
                PagePlan {
                    page_index: page_no,
                    offset: ((page_no - 1) * page_size) as usize,
                    limit: page_limit(recsize, page_size as nat, 0) as usize,
                },
            ]
        },
{
    let p = started(recsize, page_size, Some(page_no));
    if recsize != Some(0usize) {
        assert(rows_wanted(recsize, page_size as nat, 0) > 0);
        let plan = after_plan(p).1->0;
        assert(after_plan(p).0 == p);
        let q = after_record(p, rows[0], plan.limit);
        assert(q.finished);
        assert(table_pages(q, rows.drop_first()) =~= Seq::<PagePlan>::empty());
        assert(table_pages(p, rows) == seq![plan] + table_pages(q, rows.drop_first()));
        assert(table_pages(p, rows) =~= seq![plan]);
    }
}

// ---------------------------------------------------------------------
// What a run reports
// ---------------------------------------------------------------------

/// The row count a `SELECT COUNT(*)` gave: its first cell when that parses
/// as a count, else 0.
pub open spec fn estimate_of(first_column: Seq<Seq<char>>) -> nat {
    if first_column.len() > 0 {
        match parse_usize_seq(first_column[0]) {
            Some(n) => n as nat,
            None => 0,
        }
    } else {
        0
    }
}

/// The query that counts a table's rows.
pub fn count_rows_sql(db_type: DbType, table: &str) -> (r: String)
    ensures
        r@ == "SELECT COUNT(*) FROM "@ + quoted_ident(db_type, table@),
{
    let mut s = to_owned("SELECT COUNT(*) FROM ");
    push_str(&mut s, quote_ident(db_type, table).as_str());
    s
}

/// The estimated row count of a table from the first column of its count
/// query.
pub fn estimated_rows(first_column: &Vec<String>) -> (r: usize)
    ensures
        r as nat == estimate_of(views(first_column@)),
{
    if first_column.len() > 0 {
        assert(views(first_column@)[0] == first_column@[0]@);
        match parse_usize(first_column[0].as_str()) {
            Some(n) => n,
            None => 0,
        }
    } else {
        0
    }
}

pub open spec fn some_count(n: nat) -> Option<nat> {
    Some(n)
}

fn count_event(
    total: Option<usize>,
    done: Option<usize>,
    item: Option<String>,
    rows_done: Option<usize>,
    rows_total: Option<usize>,
    status: Option<String>,
) -> (r: RunProgressEvent)
    ensures
        r.total_items == total,
        r.done_items == done,
        r.current_item == item,
        r.current_item_rows_done == rows_done,
        r.current_item_rows_total == rows_total,
        r.status == status,
{
    RunProgressEvent {
        total_items: total,
        done_items: done,
        current_item: item,
        current_item_rows_done: rows_done,
        current_item_rows_total: rows_total,
        status,
    }
}

/// The event a run starts with: `total` items, none done, status `running`.
pub fn run_started_event(total: usize) -> (r: RunProgressEvent)
    ensures
        r@ == (EventView {
            total_items: Some(total as nat),
            done_items: Some(0),
            current_item: Some(Seq::empty()),
            current_item_rows_done: Some(0),
            current_item_rows_total: Some(0),
            status: Some("running"@),
        }),
{
    count_event(
        Some(total),
        Some(0),
        Some(String::new()),
        Some(0),
        Some(0),
        Some(to_owned("running")),
    )
}

/// The event as item `index` (from 0) starts, with its estimated rows.
pub fn item_started_event(index: usize, item: &str, estimated: usize) -> (r: RunProgressEvent)
    ensures
        r@ == (EventView {
            total_items: None,
            done_items: Some(index as nat),
            current_item: Some(item@),
            current_item_rows_done: Some(0),
            current_item_rows_total: Some(estimated as nat),
            status: Some("running"@),
        }),
{
    count_event(
        None,
        Some(index),
        Some(to_owned(item)),
        Some(0),
        Some(estimated),
        Some(to_owned("running")),
    )
}

/// The event as item `index` (from 0) ends with `rows` rows; the item's
/// total is at least the rows done.
pub fn item_done_event(index: usize, item: &str, rows: usize, estimated: usize) -> (r:
    RunProgressEvent)
    requires
        index < usize::MAX,
    ensures
        r@ == (EventView {
            total_items: None,
            done_items: Some(index as nat + 1),
            current_item: Some(item@),
            current_item_rows_done: Some(rows as nat),
            current_item_rows_total: Some(
                if estimated >= rows {
                    estimated as nat
                } else {
                    rows as nat
                },
            ),
            status: Some("running"@),
        }),
{
    let total = if estimated >= rows {
        estimated
    } else {
        rows
    };
    count_event(
        None,
        Some(index + 1),
        Some(to_owned(item)),
        Some(rows),
        Some(total),
        Some(to_owned("running")),
    )
}

/// The event as item `index` (from 0) fails: counted as done, with no rows.
pub fn item_failed_event(index: usize, item: &str, estimated: usize) -> (r: RunProgressEvent)
    requires
        index < usize::MAX,
    ensures
        r@ == (EventView {
            total_items: None,
            done_items: Some(index as nat + 1),
            current_item: Some(item@),
            current_item_rows_done: Some(0),
            current_item_rows_total: Some(estimated as nat),
            status: Some("running"@),
        }),
{
    count_event(
        None,
        Some(index + 1),
        Some(to_owned(item)),
        Some(0),
        Some(estimated),
        Some(to_owned("running")),
    )
}

/// The rows done so far in the current item.
pub fn rows_progress_event(rows: usize) -> (r: RunProgressEvent)
    ensures
        r@ == (EventView {
            total_items: None,
            done_items: None,
            current_item: None,
            current_item_rows_done: Some(rows as nat),
            current_item_rows_total: None,
            status: None,
        }),
{
    count_event(None, None, None, Some(rows), None, None)
}

/// The event a failed run ends with.
pub fn run_failed_event() -> (r: RunProgressEvent)
    ensures
        r@ == (EventView {
            total_items: None,
            done_items: None,
            current_item: None,
            current_item_rows_done: None,
            current_item_rows_total: None,
            status: Some("failed"@),
        }),
{
    count_event(None, None, None, None, None, Some(to_owned("failed")))
}

/// The event a successful run ends with: every item done.
pub fn run_done_event(total_items: usize) -> (r: RunProgressEvent)
    ensures
        r@ == (EventView {
            total_items: None,
            done_items: Some(total_items as nat),
            current_item: None,
            current_item_rows_done: None,
            current_item_rows_total: None,
            status: Some("done"@),
        }),
{
    count_event(None, Some(total_items), None, None, None, Some(to_owned("done")))
}

/// How an export run ends: the failure message when a table failed or the
/// archiving failed.
pub fn export_outcome(failed_tables: usize, compress_failed: bool) -> (r: Option<String>)
    ensures
        r is None <==> (failed_tables == 0 && !compress_failed),
        r matches Some(m) ==> m@ == "export finished with failure: failed_tables="@ + decimal(
            failed_tables as nat,
        ) + ", compress_failed="@ + if compress_failed {
            "true"@
        } else {
            "false"@
        },
{
    if failed_tables == 0 && !compress_failed {
        return None;
    }
    let mut m = to_owned("export finished with failure: failed_tables=");
    push_str(&mut m, usize_to_string(failed_tables).as_str());
    push_str(&mut m, ", compress_failed=");
    push_str(
        &mut m,
        if compress_failed {
            "true"
        } else {
            "false"
        },
    );
    Some(m)
}

/// The summary line of an export.
pub fn export_summary_line(success: usize, failed: usize, rows: usize, output_dir: &str) -> (r:
    String)
    ensures
        r@ == "summary success_tables="@ + decimal(success as nat) + " failed_tables="@ + decimal(
            failed as nat,
        ) + " exported_rows="@ + decimal(rows as nat) + " output_dir="@ + output_dir@,
{
    let mut m = to_owned("summary success_tables=");
    push_str(&mut m, usize_to_string(success).as_str());
    push_str(&mut m, " failed_tables=");
    push_str(&mut m, usize_to_string(failed).as_str());
    push_str(&mut m, " exported_rows=");
    push_str(&mut m, usize_to_string(rows).as_str());
    push_str(&mut m, " output_dir=");
    push_str(&mut m, output_dir);
    m
}

// ---------------------------------------------------------------------
// The report table
// ---------------------------------------------------------------------

pub open spec fn spaces(n: nat) -> Seq<char> {
    Seq::new(n, |i: int| ' ')
}

/// `{:<w$}`: the text followed by spaces up to `w` characters.
pub open spec fn pad_after(s: Seq<char>, w: nat) -> Seq<char> {
    if s.len() < w {
        s + spaces((w - s.len()) as nat)
    } else {
        s
    }
}

/// `{:>w$}`: spaces in front of the text up to `w` characters.
pub open spec fn pad_before(s: Seq<char>, w: nat) -> Seq<char> {
    if s.len() < w {
        spaces((w - s.len()) as nat) + s
    } else {
        s
    }
}

fn fill(n: usize, c: char) -> (r: String)
    ensures
        r@ == Seq::new(n as nat, |i: int| c),
{
    let mut out = String::new();
    let mut i: usize = 0;
    while i < n
        invariant
            i <= n,
            out@ == Seq::new(i as nat, |k: int| c),
        decreases n - i,
    {
        crate::text::push_char(&mut out, c);
        assert(out@ =~= Seq::new((i + 1) as nat, |k: int| c));
        i = i + 1;
    }
    out
}

fn padded(s: &str, w: usize, before: bool) -> (r: String)
    ensures
        r@ == if before {
            pad_before(s@, w as nat)
        } else {
            pad_after(s@, w as nat)
        },
{
    let n = s.unicode_len();
    if n < w {
        let f = fill(w - n, ' ');
        if before {
            let mut out = f;
            push_str(&mut out, s);
            out
        } else {
            let mut out = to_owned(s);
            push_str(&mut out, f.as_str());
            out
        }
    } else {
        to_owned(s)
    }
}

/// `{:<w$}` of a text.
pub fn pad_text_after(s: &str, w: usize) -> (r: String)
    ensures
        r@ == pad_after(s@, w as nat),
{
    padded(s, w, false)
}

/// The widths of the report columns: kind, table, page, rows, elapsed
/// milliseconds, status.
pub open spec fn report_widths() -> Seq<nat> {
    seq![8, 30, 8, 12, 12, 8]
}

/// One line of the report table.
pub open spec fn report_row(
    kind: Seq<char>,
    table: Seq<char>,
    page: Seq<char>,
    rows: Seq<char>,
    elapsed: Seq<char>,
    status: Seq<char>,
) -> Seq<char> {
    "| "@ + pad_after(kind, 8) + " | "@ + pad_after(table, 30) + " | "@ + pad_before(page, 8)
        + " | "@ + pad_before(rows, 12) + " | "@ + pad_before(elapsed, 12) + " | "@ + pad_after(
        status,
        8,
    ) + " |"@
}

fn report_line(
    kind: &str,
    table: &str,
    page: &str,
    rows: &str,
    elapsed: &str,
    status: &str,
) -> (r: String)
    ensures
        r@ == report_row(kind@, table@, page@, rows@, elapsed@, status@),
{
    let mut out = to_owned("| ");
    push_str(&mut out, padded(kind, 8, false).as_str());
    push_str(&mut out, " | ");
    push_str(&mut out, padded(table, 30, false).as_str());
    push_str(&mut out, " | ");
    push_str(&mut out, padded(page, 8, true).as_str());
    push_str(&mut out, " | ");
    push_str(&mut out, padded(rows, 12, true).as_str());
    push_str(&mut out, " | ");
    push_str(&mut out, padded(elapsed, 12, true).as_str());
    push_str(&mut out, " | ");
    push_str(&mut out, padded(status, 8, false).as_str());
    push_str(&mut out, " |");
    out
}

/// A row of the export report: kind, table and status clipped to their
/// columns, the page (`-` for a whole table), the rows and the elapsed
/// milliseconds.
pub fn export_row_text(
    kind: &str,
    table: &str,
    page: Option<usize>,
    rows: usize,
    elapsed_ms: usize,
    status: &str,
) -> (r: String)
    ensures
        r@ == report_row(
            clipped(kind@, 8),
            clipped(table@, 30),
            match page {
                Some(p) => decimal(p as nat),
                None => "-"@,
            },
            decimal(rows as nat),
            decimal(elapsed_ms as nat),
            clipped(status@, 8),
        ),
{
    let page_cell = match page {
        Some(p) => usize_to_string(p),
        None => to_owned("-"),
    };
    report_line(
        clip_text(kind, 8).as_str(),
        clip_text(table, 30).as_str(),
        page_cell.as_str(),
        usize_to_string(rows).as_str(),
        usize_to_string(elapsed_ms).as_str(),
        clip_text(status, 8).as_str(),
    )
}

/// The head of the export report.
pub fn export_header_text() -> (r: String)
    ensures
        r@ == report_row("TYPE"@, "TABLE"@, "PAGE"@, "ROWS"@, "ELAPSED_MS"@, "STATUS"@),
{
    report_line("TYPE", "TABLE", "PAGE", "ROWS", "ELAPSED_MS", "STATUS")
}

pub open spec fn dashes(n: nat) -> Seq<char> {
    Seq::new(n, |i: int| '-')
}

/// The rule around the head of the export report.
pub fn export_rule_text() -> (r: String)
    ensures
        r@ == "+-"@ + dashes(8) + "-+-"@ + dashes(30) + "-+-"@ + dashes(8) + "-+-"@ + dashes(12)
            + "-+-"@ + dashes(12) + "-+-"@ + dashes(8) + "-+"@,
{
    let mut out = to_owned("+-");
    push_str(&mut out, fill(8, '-').as_str());
    push_str(&mut out, "-+-");
    push_str(&mut out, fill(30, '-').as_str());
    push_str(&mut out, "-+-");
    push_str(&mut out, fill(8, '-').as_str());
    push_str(&mut out, "-+-");
    push_str(&mut out, fill(12, '-').as_str());
    push_str(&mut out, "-+-");
    push_str(&mut out, fill(12, '-').as_str());
    push_str(&mut out, "-+-");
    push_str(&mut out, fill(8, '-').as_str());
    push_str(&mut out, "-+");
    out
}

// ---------------------------------------------------------------------
// Archiving the output
// ---------------------------------------------------------------------

pub open spec fn spec_archive_extension(c: CompressType) -> Seq<char> {
    match c {
        CompressType::Zip => "zip"@,
        CompressType::Bzip => "bz2"@,
        CompressType::Tar => "tar"@,
    }
}

/// The extension of the archive a compression makes.
pub fn archive_extension(c: CompressType) -> (r: &'static str)
    ensures
        r@ == spec_archive_extension(c),
{
    match c {
        CompressType::Zip => "zip",
        CompressType::Bzip => "bz2",
        CompressType::Tar => "tar",
    }
}

/// `wh-export-<timestamp>.<extension>`.
pub fn archive_file_name(timestamp: &str, c: CompressType) -> (r: String)
    ensures
        r@ == "wh-export-"@ + timestamp@ + "."@ + spec_archive_extension(c),
{
    let mut s = to_owned("wh-export-");
    push_str(&mut s, timestamp);
    push_str(&mut s, ".");
    push_str(&mut s, archive_extension(c));
    s
}

/// The program and arguments that archive the output directory `dir_name`
/// into `archive_name` (both taken from the directory's parent).
pub open spec fn archive_command(c: CompressType, archive_name: Seq<char>, dir_name: Seq<char>) -> (
    Seq<char>,
    Seq<Seq<char>>,
) {
    match c {
        CompressType::Zip => ("zip"@, seq!["-r"@, "-q"@, archive_name, dir_name]),
        CompressType::Bzip => ("tar"@, seq!["-cjf"@, archive_name, dir_name]),
        CompressType::Tar => ("tar"@, seq!["-cf"@, archive_name, dir_name]),
    }
}

pub fn compress_command(c: CompressType, archive_name: &str, dir_name: &str) -> (r: (
    String,
    Vec<String>,
))
    ensures
        (r.0@, views(r.1@)) == archive_command(c, archive_name@, dir_name@),
{
    let mut args: Vec<String> = Vec::new();
    let program = match c {
        CompressType::Zip => {
            args.push(to_owned("-r"));
            args.push(to_owned("-q"));
            to_owned("zip")
        },
        CompressType::Bzip => {
            args.push(to_owned("-cjf"));
            to_owned("tar")
        },
        CompressType::Tar => {
            args.push(to_owned("-cf"));
            to_owned("tar")
        },
    };
    args.push(to_owned(archive_name));
    args.push(to_owned(dir_name));
    proof {
        let (p, a) = archive_command(c, archive_name@, dir_name@);
        assert(views(args@) =~= a);
    }
    (program, args)
}

/// A command's printed answer, trimmed (as the `date` output the archive
/// name and the import directory take their time stamps from).
pub fn command_output_text(stdout: &str) -> (r: String)
    ensures
        r@ == trim_seq(stdout@),
{
    trim(stdout)
}

} // verus!
