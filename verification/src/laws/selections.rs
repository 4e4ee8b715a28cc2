//! What the calls that list inputs and apps give. Each law speaks of calls: of what was handed in
//! and what came back.

use crate::error::{ClientError, Error};
use crate::json::{list_view, Json, JsonView};
use crate::laws::setup::control_code;
use crate::selection::{
    choose_offers, chosen, is_taken, judge_apps, judged_views, offers, read_offers, row_offer,
    selectable_views, Listing, Selectable,
};
use crate::text::is_label;
use crate::tv::WebOsTv;
use vstd::prelude::*;
use vstd::utf8::*;

verus! {

/// Whether a text is not empty, has at most so many bytes and holds no control code.
pub open spec fn printable(text: Seq<char>, limit: nat) -> bool {
    &&& text.len() > 0
    &&& encode_utf8(text).len() <= limit
    &&& forall|i: int| 0 <= i < text.len() ==> !control_code(#[trigger] text[i])
}

/// What can be shown is what is printable.
pub proof fn labels_are_printable(text: Seq<char>, limit: nat)
    ensures
        is_label(text, limit) <==> printable(text, limit),
{
    if is_label(text, limit) {
        assert forall|i: int| 0 <= i < text.len() implies !control_code(#[trigger] text[i]) by {}
    }
}

/// Whether two items are the same.
pub open spec fn same_item(a: Selectable, b: Selectable) -> bool {
    a.id@ == b.id@ && a.name@ == b.name@
}

/// Whether two lists hold the same items in the same order.
pub open spec fn same_items(a: Seq<Selectable>, b: Seq<Selectable>) -> bool {
    a.len() == b.len() && forall|i: int| 0 <= i < a.len() ==> same_item(#[trigger] a[i], b[i])
}

proof fn same_views_are_same_items(a: Seq<Selectable>, b: Seq<Selectable>)
    requires
        selectable_views(a) == selectable_views(b),
    ensures
        same_items(a, b),
{
    assert(selectable_views(a).len() == a.len() && selectable_views(b).len() == b.len());
    assert forall|i: int| 0 <= i < a.len() implies same_item(#[trigger] a[i], b[i]) by {
        assert(selectable_views(a)[i] == a[i]@);
        assert(selectable_views(b)[i] == b[i]@);
    }
}

/// A row of the list of inputs with a text under `id` offers exactly that identifier, whatever
/// stands under `appId`; the text under `appId` counts only where there is none under `id`, and a
/// row without either offers nothing. It goes by the text under `label`, or else by its identifier.
pub proof fn input_rows_go_by_their_id(row: Json, rows: Vec<Json>, offered: Vec<Selectable>)
    requires
        rows@ == seq![row],
        call_ensures(read_offers, (Listing::Inputs, &rows), offered),
    ensures
        row@.field("id"@) matches JsonView::Text(id) ==> offered@.len() == 1 && offered@[0].id@
            == id,
        !(row@.field("id"@) is Text) ==> (row@.field("appId"@) matches JsonView::Text(id)
            ==> offered@.len() == 1 && offered@[0].id@ == id),
        !(row@.field("id"@) is Text) && !(row@.field("appId"@) is Text) ==> offered@.len() == 0,
        offered@.len() == 1 ==> offered@[0].name@ == match row@.field("label"@) {
            JsonView::Text(name) => name,
            _ => offered@[0].id@,
        },
{
    one_row(Listing::Inputs, row, rows, offered);
}

/// A row of the list of apps offers the identifier under `id` and the name under `title`, or else
/// its identifier; a row without an identifier offers nothing.
pub proof fn app_rows_go_by_their_id(row: Json, rows: Vec<Json>, offered: Vec<Selectable>)
    requires
        rows@ == seq![row],
        call_ensures(read_offers, (Listing::Apps, &rows), offered),
    ensures
        row@.field("id"@) matches JsonView::Text(id) ==> offered@.len() == 1 && offered@[0].id@
            == id,
        !(row@.field("id"@) is Text) ==> offered@.len() == 0,
        offered@.len() == 1 ==> offered@[0].name@ == match row@.field("title"@) {
            JsonView::Text(name) => name,
            _ => offered@[0].id@,
        },
{
    one_row(Listing::Apps, row, rows, offered);
}

proof fn one_row(listing: Listing, row: Json, rows: Vec<Json>, offered: Vec<Selectable>)
    requires
        rows@ == seq![row],
        call_ensures(read_offers, (listing, &rows), offered),
    ensures
        match row_offer(listing, row@) {
            Some(offer) => offered@.len() == 1 && offered@[0]@ == offer,
            None => offered@.len() == 0,
        },
{
    let views = list_view(rows@);
    assert(rows@.drop_last() == Seq::<Json>::empty());
    assert(list_view(rows@.drop_last()) == Seq::<JsonView>::empty());
    assert(views == seq![row@]);
    assert(views.drop_last() == Seq::<JsonView>::empty());
    assert(offers(listing, views.drop_last()).len() == 0);
    assert(selectable_views(offered@).len() == offered@.len());
    if offered@.len() == 1 {
        assert(selectable_views(offered@)[0] == offered@[0]@);
    }
}

/// The offers of a list are those of its rows, row by row and in their order: a list put together of
/// two offers what the first offers and then what the second offers. No row offers nothing.
pub proof fn offers_keep_the_order_of_the_rows(
    listing: Listing,
    first: Vec<Json>,
    second: Vec<Json>,
    both: Vec<Json>,
    from_first: Vec<Selectable>,
    from_second: Vec<Selectable>,
    from_both: Vec<Selectable>,
)
    requires
        both@ == first@ + second@,
        call_ensures(read_offers, (listing, &first), from_first),
        call_ensures(read_offers, (listing, &second), from_second),
        call_ensures(read_offers, (listing, &both), from_both),
    ensures
        same_items(from_both@, from_first@ + from_second@),
        first@.len() == 0 ==> from_first@.len() == 0,
{
    lists_are_put_together(first@, second@);
    offers_are_put_together(listing, list_view(first@), list_view(second@));
    assert(selectable_views(from_first@ + from_second@) == selectable_views(from_first@)
        + selectable_views(from_second@));
    same_views_are_same_items(from_both@, from_first@ + from_second@);
    assert(selectable_views(from_first@).len() == from_first@.len());
}

proof fn lists_are_put_together(first: Seq<Json>, second: Seq<Json>)
    ensures
        list_view(first + second) == list_view(first) + list_view(second),
    decreases second.len(),
{
    if second.len() == 0 {
        assert(first + second == first);
        assert(list_view(first) + list_view(second) == list_view(first));
    } else {
        assert((first + second).drop_last() == first + second.drop_last());
        assert((first + second).last() == second.last());
        lists_are_put_together(first, second.drop_last());
    }
}

proof fn offers_are_put_together(listing: Listing, first: Seq<JsonView>, second: Seq<JsonView>)
    ensures
        offers(listing, first + second) == offers(listing, first) + offers(listing, second),
    decreases second.len(),
{
    if second.len() == 0 {
        assert(first + second == first);
        assert(offers(listing, first) + offers(listing, second) == offers(listing, first));
    } else {
        assert((first + second).drop_last() == first + second.drop_last());
        assert((first + second).last() == second.last());
        offers_are_put_together(listing, first, second.drop_last());
    }
}

/// An app can be launched exactly where its identifier is printable and has at most 256 bytes. Every
/// offer is judged, and none is changed.
pub proof fn apps_are_judged_by_their_identifier(
    offered: Vec<Selectable>,
    judged: Vec<(Selectable, bool)>,
    i: int,
)
    requires
        call_ensures(judge_apps, (offered,), judged),
    ensures
        judged@.len() == offered@.len(),
        0 <= i < offered@.len() ==> same_item(judged@[i].0, offered@[i]) && (judged@[i].1
            <==> printable(offered@[i].id@, 256)),
{
    assert(judged_views(judged@).len() == judged@.len());
    assert(selectable_views(offered@).len() == offered@.len());
    if 0 <= i < offered@.len() {
        assert(judged_views(judged@)[i] == (judged@[i].0@, judged@[i].1));
        assert(selectable_views(offered@)[i] == offered@[i]@);
        labels_are_printable(offered@[i].id@, 256);
    }
}

/// Of offers that end in one more, what is shown is what was shown without it, and then that one
/// exactly where it is valid, no valid offer before it has its identifier, and its name is printable
/// and has at most 4096 bytes. Of no offers nothing is shown.
pub proof fn each_offer_is_shown_or_left_out(
    before: Vec<(Selectable, bool)>,
    all: Vec<(Selectable, bool)>,
    item: Selectable,
    valid: bool,
    shown_before: Vec<Selectable>,
    shown: Vec<Selectable>,
)
    requires
        all@ == before@.push((item, valid)),
        call_ensures(choose_offers, (&before,), shown_before),
        call_ensures(choose_offers, (&all,), shown),
    ensures
        ({
            let taken = exists|i: int|
                0 <= i < before@.len() && (#[trigger] before@[i]).1 && before@[i].0.id@ == item.id@;
            if valid && !taken && printable(item.name@, 4096) {
                same_items(shown@, shown_before@.push(item))
            } else {
                same_items(shown@, shown_before@)
            }
        }),
        before@.len() == 0 ==> shown_before@.len() == 0,
{
    let views = judged_views(all@);
    let earlier = judged_views(before@);
    assert(views.drop_last() == earlier);
    assert(views.last() == (item@, valid));
    let taken = exists|i: int|
        0 <= i < before@.len() && (#[trigger] before@[i]).1 && before@[i].0.id@ == item.id@;
    assert(is_taken(earlier, item@.id) == taken) by {
        if is_taken(earlier, item@.id) {
            let i = choose|i: int|
                0 <= i < earlier.len() && (#[trigger] earlier[i]).1 && earlier[i].0.id == item@.id;
            assert(before@[i].1 && before@[i].0.id@ == item.id@);
        }
        if taken {
            let i = choose|i: int|
                0 <= i < before@.len() && (#[trigger] before@[i]).1 && before@[i].0.id@ == item.id@;
            assert(earlier[i].1 && earlier[i].0.id == item@.id);
        }
    }
    labels_are_printable(item.name@, 4096);
    if valid && !taken && printable(item.name@, 4096) {
        assert(selectable_views(shown_before@.push(item)) == selectable_views(shown_before@).push(
            item@,
        ));
        assert(chosen(views) == chosen(earlier).push(item@));
        same_views_are_same_items(shown@, shown_before@.push(item));
    } else {
        same_views_are_same_items(shown@, shown_before@);
    }
    assert(selectable_views(shown_before@).len() == shown_before@.len());
}

/// A reply with a list under `devices` offers what its rows offer; any other reply breaks the
/// protocol, and a failure is reported.
pub proof fn inputs_are_what_the_rows_offer(
    payload: Json,
    rows: Vec<Json>,
    from_rows: Vec<Selectable>,
    error: Error,
    report: ClientError,
    offered: Result<Vec<Selectable>, ClientError>,
    failed: Result<Vec<Selectable>, ClientError>,
)
    requires
        call_ensures(read_offers, (Listing::Inputs, &rows), from_rows),
        call_ensures(<ClientError as From<Error>>::from, (error,), report),
        call_ensures(WebOsTv::inputs_replied, (Ok(payload),), offered),
        call_ensures(WebOsTv::inputs_replied, (Err(error),), failed),
    ensures
        payload@.field("devices"@) == JsonView::List(list_view(rows@)) ==> (offered matches Ok(items)
            && same_items(items@, from_rows@)),
        !(payload@.field("devices"@) is List) ==> (offered matches Err(error) && error
            == ClientError::Protocol),
        failed matches Err(error) && error == report,
{
    if payload@.field("devices"@) == JsonView::List(list_view(rows@)) {
        same_views_are_same_items(offered->Ok_0@, from_rows@);
    }
}

/// A reply with a list under `launchPoints` shows what is chosen of the offers of its rows; any other
/// reply breaks the protocol, and a failure is reported.
pub proof fn apps_are_chosen_of_what_the_rows_offer(
    payload: Json,
    rows: Vec<Json>,
    from_rows: Vec<Selectable>,
    judged: Vec<(Selectable, bool)>,
    picked: Vec<Selectable>,
    error: Error,
    report: ClientError,
    shown: Result<Vec<Selectable>, ClientError>,
    failed: Result<Vec<Selectable>, ClientError>,
)
    requires
        call_ensures(read_offers, (Listing::Apps, &rows), from_rows),
        call_ensures(judge_apps, (from_rows,), judged),
        call_ensures(choose_offers, (&judged,), picked),
        call_ensures(<ClientError as From<Error>>::from, (error,), report),
        call_ensures(WebOsTv::apps_replied, (Ok(payload),), shown),
        call_ensures(WebOsTv::apps_replied, (Err(error),), failed),
    ensures
        payload@.field("launchPoints"@) == JsonView::List(list_view(rows@)) ==> (shown matches Ok(
            items,
        ) && same_items(items@, picked@)),
        !(payload@.field("launchPoints"@) is List) ==> (shown matches Err(error) && error
            == ClientError::Protocol),
        failed matches Err(error) && error == report,
{
    if payload@.field("launchPoints"@) == JsonView::List(list_view(rows@)) {
        same_views_are_same_items(shown->Ok_0@, picked@);
    }
}

} // verus!
