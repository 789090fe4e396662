//! Pages: the name a page is stored under, and the content of a page by name.

use crate::models::content::Content;
use crate::models::page::{NewPageRequest, Page, PageContent};
use crate::naming::{store_name, stored_name};
use crate::store::StoreError;
use vstd::prelude::*;

verus! {

/// The request to create a page, with the name under which it is stored.
pub fn named_for_store(request: NewPageRequest) -> (r: NewPageRequest)
    ensures
        r.app_id == request.app_id,
        r.name@ == stored_name(request.name@),
{
    NewPageRequest { app_id: request.app_id, name: store_name(request.name.as_str()) }
}

/// The bodies of blocks of content by their names; of two blocks with one
/// name the later one counts.
pub open spec fn content_by_name(contents: Seq<Content>) -> Map<Seq<char>, Seq<char>>
    decreases contents.len(),
{
    if contents.len() == 0 {
        Map::empty()
    } else {
        content_by_name(contents.drop_last()).insert(contents.last().name@, contents.last().body@)
    }
}

/// The content of a page by name, given its blocks. A page without blocks
/// counts as not found.
pub fn page_content(contents: &Vec<Content>) -> (r: Result<PageContent, StoreError>)
    ensures
        match r {
            Ok(content) => contents@.len() > 0 && content@ == content_by_name(contents@),
            Err(error) => contents@.len() == 0 && error == StoreError::RowNotFound,
        },
{
    if contents.len() == 0 {
        return Err(StoreError::RowNotFound);
    }
    let mut content = PageContent::new();
    let mut i: usize = 0;
    assert(contents@.take(0) =~= Seq::<Content>::empty());
    while i < contents.len()
        invariant
            0 <= i <= contents.len(),
            content@ == content_by_name(contents@.take(i as int)),
        decreases contents.len() - i,
    {
        content.insert(contents[i].name.clone(), contents[i].body.clone());
        assert(contents@.take(i + 1).drop_last() =~= contents@.take(i as int));
        i += 1;
    }
    assert(contents@.take(contents@.len() as int) =~= contents@);
    Ok(content)
}

/// A row of a page joined with its content: the columns of the page, and the
/// name and the body of one of its blocks. A page without content joins to
/// one row without a block.
#[derive(Debug)]
pub struct JoinedRow {
    pub id: i64,
    pub app_id: i64,
    pub name: String,
    pub created_at: String,
    pub updated_at: String,
    pub content_name: Option<String>,
    pub content_body: Option<String>,
}

/// The bodies by name that joined rows hold: a row counts where it has both a
/// name and a body, and of two rows with one name the later one counts.
pub open spec fn joined_content(rows: Seq<JoinedRow>) -> Map<Seq<char>, Seq<char>>
    decreases rows.len(),
{
    if rows.len() == 0 {
        Map::empty()
    } else {
        let before = joined_content(rows.drop_last());
        match (rows.last().content_name, rows.last().content_body) {
            (Some(name), Some(body)) => before.insert(name@, body@),
            _ => before,
        }
    }
}

/// The page and its content by name that the rows of a join stand for. No
/// rows: no such page. The page is read from the first row.
pub fn page_of_joined(rows: &Vec<JoinedRow>) -> (r: Option<(Page, PageContent)>)
    ensures
        r is None <==> rows@.len() == 0,
        r matches Some((page, content)) ==> {
            &&& page.id == rows@[0].id
            &&& page.app_id == rows@[0].app_id
            &&& page.name == rows@[0].name
            &&& page.created_at == rows@[0].created_at
            &&& page.updated_at == rows@[0].updated_at
            &&& content@ == joined_content(rows@)
        },
{
    if rows.len() == 0 {
        return None;
    }
    let mut content = PageContent::new();
    let mut i: usize = 0;
    assert(rows@.take(0) =~= Seq::<JoinedRow>::empty());
    while i < rows.len()
        invariant
            0 <= i <= rows.len(),
            content@ == joined_content(rows@.take(i as int)),
        decreases rows.len() - i,
    {
        assert(rows@.take(i + 1).drop_last() =~= rows@.take(i as int));
        match (&rows[i].content_name, &rows[i].content_body) {
            (Some(name), Some(body)) => {
                content.insert(name.clone(), body.clone());
            },
            _ => {},
        }
        i += 1;
    }
    assert(rows@.take(rows@.len() as int) =~= rows@);
    let first = &rows[0];
    let page = Page {
        id: first.id,
        app_id: first.app_id,
        name: first.name.clone(),
        created_at: first.created_at.clone(),
        updated_at: first.updated_at.clone(),
    };
    Some((page, content))
}

} // verus!
