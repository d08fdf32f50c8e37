//! Laws of listings that are fetched page by page.
use vstd::prelude::*;

use crate::jetstream::{
    checked, page_document, page_items, page_reply_step, page_step, page_total, ListingKind,
    ListingSpec, PageSpec,
};
use crate::json::JsonSpec;
use crate::laws::documents::{at, law_fields_are_found};

verus! {

/// Whether the next page starts behind the items that came.
pub open spec fn counts_items(listing: ListingSpec) -> bool {
    listing.offset == listing.items.len()
}

/// The array that a page holds under `field`, empty where it holds none.
pub open spec fn sent(page: JsonSpec, field: Seq<char>) -> Seq<JsonSpec> {
    if at(page, field) is Some && at(page, field)->0 is Array {
        at(page, field)->0->Array_0
    } else {
        Seq::empty()
    }
}

/// Whether a page says that there are `count` items: by its field `total`, else by the array that it
/// holds.
pub open spec fn says(page: JsonSpec, field: Seq<char>, count: nat) -> bool {
    let total = at(page, "total"@);
    if total is Some && total->0 is Unsigned {
        total->0->Unsigned_0 == count
    } else {
        sent(page, field).len() == count
    }
}

/// A page brings the array that it holds, all of it, whatever else it holds. It says how many items
/// there are by its field `total`, where that is an integer and not negative, else by the length of
/// the array.
pub proof fn law_page_brings_its_array(page: JsonSpec, field: Seq<char>, total: u64)
    ensures
        page_items(page, field) == sent(page, field),
        at(page, "total"@) == Some(JsonSpec::Unsigned(total)) ==> page_total(page, field) == total,
        at(page, "total"@) is None || !(at(page, "total"@)->0 is Unsigned) ==> page_total(page, field)
            == sent(page, field).len(),
{
    law_fields_are_found(page, field, field);
    law_fields_are_found(page, "total"@, "total"@);
}

/// Which pages are asked for: those of the streams, or those of the consumers of a stream, each from
/// the item on that the request names and nothing else.
pub proof fn law_pages_are_asked_for_by_offset(kind: ListingKind, offset: u64)
    ensures
        kind is Streams ==> kind.subject() == "$JS.API.STREAM.LIST"@ && kind.field() == "streams"@,
        kind matches ListingKind::Consumers { stream } ==> kind.subject() == "$JS.API.CONSUMER."@
            + "LIST."@ + stream@ && kind.field() == "consumers"@,
        at(page_document(offset), "offset"@) == Some(JsonSpec::Unsigned(offset)),
        forall|key: Seq<char>| key != "offset"@ ==> #[trigger] at(page_document(offset), key) is None,
{
    reveal_strlit("$JS.API.CONSUMER.");
    reveal_strlit("LIST.");
    reveal_strlit("$JS.API.CONSUMER.LIST.");
    assert("$JS.API.CONSUMER.LIST."@ =~= "$JS.API.CONSUMER."@ + "LIST."@);
}

/// A listing takes all items of a page. It is complete with a page without items, and once as many
/// came as there are; else its next page starts as many items further on as the page had.
pub proof fn law_page_is_taken_whole(
    listing: ListingSpec,
    field: Seq<char>,
    page: JsonSpec,
    total: nat,
)
    requires
        says(page, field, total),
        listing.offset + sent(page, field).len() <= u64::MAX,
    ensures
        page_step(listing, field, page) == (if sent(page, field).len() == 0 || listing.items.len()
            + sent(page, field).len() >= total {
            PageSpec::Done(listing.items + sent(page, field))
        } else {
            PageSpec::More(
                ListingSpec {
                    offset: (listing.offset + sent(page, field).len()) as u64,
                    items: listing.items + sent(page, field),
                },
            )
        }),
{
    law_page_brings_its_array(page, field, total as u64);
}

/// A page that does not say how many items there are completes the listing.
pub proof fn law_page_without_total_is_the_last(
    listing: ListingSpec,
    field: Seq<char>,
    page: JsonSpec,
)
    requires
        at(page, "total"@) is None,
    ensures
        page_step(listing, field, page) == PageSpec::Done(listing.items + sent(page, field)),
{
    law_page_brings_its_array(page, field, 0);
}

/// A listing that is not complete yet has more items than before, fewer than there are, and starts
/// its next page behind them.
pub proof fn law_every_page_brings_items(listing: ListingSpec, field: Seq<char>, page: JsonSpec)
    requires
        counts_items(listing),
        page_total(page, field) <= u64::MAX,
    ensures
        page_step(listing, field, page) matches PageSpec::More(next) ==> {
            &&& counts_items(next)
            &&& listing.items.len() < next.items.len() < page_total(page, field)
            &&& next.items == listing.items + sent(page, field)
        },
{
    law_page_brings_its_array(page, field, 0);
}

/// The items of `pages`, one page after the other.
pub open spec fn gathered(pages: Seq<JsonSpec>, field: Seq<char>) -> Seq<JsonSpec>
    decreases pages.len(),
{
    if pages.len() == 0 {
        Seq::empty()
    } else {
        sent(pages[0], field) + gathered(pages.drop_first(), field)
    }
}

/// The complete listing that comes of `pages`, where it is complete with the last of them.
pub open spec fn listed(listing: ListingSpec, field: Seq<char>, pages: Seq<JsonSpec>) -> Option<
    Seq<JsonSpec>,
>
    decreases pages.len(),
{
    if pages.len() == 0 {
        None
    } else {
        match page_step(listing, field, pages[0]) {
            PageSpec::Done(items) => if pages.len() == 1 {
                Some(items)
            } else {
                None
            },
            PageSpec::More(next) => listed(next, field, pages.drop_first()),
        }
    }
}

/// A complete listing has the items of its pages, each once and in order.
pub proof fn law_listing_has_the_items_of_its_pages(
    listing: ListingSpec,
    field: Seq<char>,
    pages: Seq<JsonSpec>,
)
    ensures
        listed(listing, field, pages) matches Some(items) ==> items == listing.items + gathered(
            pages,
            field,
        ),
    decreases pages.len(),
{
    if pages.len() > 0 {
        let rest = pages.drop_first();
        law_page_brings_its_array(pages[0], field, 0);
        match page_step(listing, field, pages[0]) {
            PageSpec::Done(items) => {
                assert(pages.len() == 1 ==> gathered(rest, field) =~= Seq::empty());
                assert(pages.len() == 1 ==> items =~= listing.items + gathered(pages, field));
            },
            PageSpec::More(next) => {
                law_listing_has_the_items_of_its_pages(next, field, rest);
                assert(next.items + gathered(rest, field) =~= listing.items + gathered(
                    pages,
                    field,
                ));
            },
        }
    }
}

/// Whether a server that has the items `all` sends `pages`, from the item `from` on: each says how
/// many items there are, and brings at least one as long as any are left.
pub open spec fn serves(
    all: Seq<JsonSpec>,
    from: int,
    field: Seq<char>,
    pages: Seq<JsonSpec>,
) -> bool
    decreases pages.len(),
{
    &&& pages.len() > 0
    &&& says(pages[0], field, all.len())
    &&& 0 <= from
    &&& from + sent(pages[0], field).len() <= all.len()
    &&& sent(pages[0], field) == all.subrange(
        from,
        from + sent(pages[0], field).len(),
    )
    &&& sent(pages[0], field).len() > 0 || from == all.len()
    &&& if from + sent(pages[0], field).len() == all.len() {
        pages.len() == 1
    } else {
        serves(all, from + sent(pages[0], field).len(), field, pages.drop_first())
    }
}

/// From a server that sends the items that it has, page by page, the listing gets them all.
pub proof fn law_listing_is_complete(
    all: Seq<JsonSpec>,
    listing: ListingSpec,
    field: Seq<char>,
    pages: Seq<JsonSpec>,
)
    requires
        all.len() <= u64::MAX,
        counts_items(listing),
        listing.items.len() <= all.len(),
        listing.items == all.take(listing.items.len() as int),
        serves(all, listing.items.len() as int, field, pages),
    ensures
        listed(listing, field, pages) == Some(all),
    decreases pages.len(),
{
    law_page_brings_its_array(pages[0], field, all.len() as u64);
    let items = sent(pages[0], field);
    let from = listing.items.len() as int;
    assert(listing.items + items =~= all.take(from + items.len()));
    if from + items.len() == all.len() {
        assert(all.take(from + items.len()) =~= all);
    } else {
        if let PageSpec::More(next) = page_step(listing, field, pages[0]) {
            law_listing_is_complete(all, next, field, pages.drop_first());
        }
    }
}

/// Whether `page` is what a server that has the items `all` answers when it is asked for those from
/// `from` on: it says how many there are, and brings at least one as long as any are left.
pub open spec fn is_honest(all: Seq<JsonSpec>, from: int, field: Seq<char>, page: JsonSpec) -> bool {
    let items = sent(page, field);
    &&& says(page, field, all.len())
    &&& from + items.len() <= all.len()
    &&& items == all.subrange(from, from + items.len())
    &&& items.len() > 0 || from == all.len()
}

/// What a listing has once it is complete, where `server` answers the request for the page at an
/// offset, and at most `turns` pages are asked for.
pub open spec fn fetched(
    listing: ListingSpec,
    field: Seq<char>,
    server: spec_fn(u64) -> JsonSpec,
    turns: nat,
) -> Option<Seq<JsonSpec>>
    decreases turns,
{
    if turns == 0 {
        None
    } else {
        match page_step(listing, field, server(listing.offset)) {
            PageSpec::Done(items) => Some(items),
            PageSpec::More(next) => fetched(next, field, server, (turns - 1) as nat),
        }
    }
}

/// From a server that has the items `all`, and sends pages of whatever size, a listing gets all of
/// them, each once and in order, after no more pages than there are items, and one.
pub proof fn law_listing_gets_what_the_server_has(
    all: Seq<JsonSpec>,
    listing: ListingSpec,
    field: Seq<char>,
    server: spec_fn(u64) -> JsonSpec,
    turns: nat,
)
    requires
        all.len() <= u64::MAX,
        forall|from: u64| from <= all.len() ==> is_honest(all, from as int, field, #[trigger] server(from)),
        counts_items(listing),
        listing.items.len() <= all.len(),
        listing.items == all.take(listing.items.len() as int),
        turns > all.len() - listing.items.len(),
    ensures
        fetched(listing, field, server, turns) == Some(all),
    decreases turns,
{
    let page = server(listing.offset);
    let items = sent(page, field);
    let from = listing.items.len() as int;
    assert(is_honest(all, from, field, page));
    law_page_is_taken_whole(listing, field, page, all.len());
    assert(listing.items + items =~= all.take(from + items.len()));
    if from + items.len() == all.len() {
        assert(all.take(from + items.len()) =~= all);
    } else {
        if let PageSpec::More(next) = page_step(listing, field, page) {
            law_listing_gets_what_the_server_has(all, next, field, server, (turns - 1) as nat);
        }
    }
}

/// A reply to the request for a page is taken as the page where it reports no error. Where it does, or
/// could not be read, the listing fails with that error.
pub proof fn law_reply_is_taken_as_the_page(
    listing: ListingSpec,
    kind: ListingKind,
    page: JsonSpec,
    error: Seq<char>,
)
    ensures
        at(page, "error"@) is None ==> page_reply_step(listing, kind, Ok(page)) == Ok::<
            PageSpec,
            Seq<char>,
        >(page_step(listing, kind.field(), page)),
        checked(page) matches Err(reason) ==> page_reply_step(listing, kind, Ok(page)) == Err::<
            PageSpec,
            Seq<char>,
        >(reason),
        page_reply_step(listing, kind, Err(error)) == Err::<PageSpec, Seq<char>>(
            "Invalid JetStream response from "@ + kind.subject() + ": "@ + error,
        ),
{
    law_fields_are_found(page, "error"@, "error"@);
}

} // verus!
