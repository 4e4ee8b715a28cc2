//! What can be selected on the television: its inputs and its apps.

use crate::function::APP_ID_LIMIT;
use crate::json::{list_view, list_view_at, list_view_len, Json, JsonView};
use crate::status::NAME_LIMIT;
use crate::text::{is_label, label};
use vstd::prelude::*;

verus! {

/// Something that can be selected.
pub struct Selectable {
    pub id: String,
    pub name: String,
}

/// What can be selected.
pub struct SelectableView {
    pub id: Seq<char>,
    pub name: Seq<char>,
}

impl View for Selectable {
    type V = SelectableView;

    open spec fn view(&self) -> SelectableView {
        SelectableView { id: self.id@, name: self.name@ }
    }
}

/// What the items of a list are.
pub open spec fn selectable_views(items: Seq<Selectable>) -> Seq<SelectableView> {
    items.map_values(|item: Selectable| item@)
}

/// What a row of the list of inputs offers: its identifier is under `id`, or else under `appId`,
/// its name under `label`; without a name it goes by its identifier.
pub open spec fn input_row(row: JsonView) -> Option<SelectableView> {
    let id = match row.field("id"@).text() {
        Some(id) => Some(id),
        None => row.field("appId"@).text(),
    };
    named(id, row.field("label"@).text())
}

/// What a row of the list of apps offers: its identifier is under `id`, its name under `title`;
/// without a name it goes by its identifier.
pub open spec fn app_row(row: JsonView) -> Option<SelectableView> {
    named(row.field("id"@).text(), row.field("title"@).text())
}

/// What an identifier and a name make, if there is an identifier.
pub open spec fn named(id: Option<Seq<char>>, name: Option<Seq<char>>) -> Option<SelectableView> {
    match (id, name) {
        (Some(id), Some(name)) => Some(SelectableView { id, name }),
        (Some(id), None) => Some(SelectableView { id, name: id }),
        (None, _) => None,
    }
}

/// Which list is read.
#[derive(Debug, Clone, Copy, PartialEq, Eq, Structural)]
pub enum Listing {
    Inputs,
    Apps,
}

/// What a row of a list offers.
pub open spec fn row_offer(listing: Listing, row: JsonView) -> Option<SelectableView> {
    match listing {
        Listing::Inputs => input_row(row),
        Listing::Apps => app_row(row),
    }
}

/// What the rows of a list offer, in their order.
pub open spec fn offers(listing: Listing, rows: Seq<JsonView>) -> Seq<SelectableView>
    decreases rows.len(),
{
    if rows.len() == 0 {
        Seq::empty()
    } else {
        let before = offers(listing, rows.drop_last());
        match row_offer(listing, rows.last()) {
            Some(offer) => before.push(offer),
            None => before,
        }
    }
}

/// An offer, and whether its identifier is valid.
pub open spec fn judged_views(offers: Seq<(Selectable, bool)>) -> Seq<(SelectableView, bool)> {
    offers.map_values(|offer: (Selectable, bool)| (offer.0@, offer.1))
}

/// Whether a valid offer with this identifier is among the offers.
pub open spec fn is_taken(offers: Seq<(SelectableView, bool)>, id: Seq<char>) -> bool {
    exists|i: int| 0 <= i < offers.len() && (#[trigger] offers[i]).1 && offers[i].0.id == id
}

/// The offers that are shown: the first valid one of each identifier, if its name can be shown.
pub open spec fn chosen(offers: Seq<(SelectableView, bool)>) -> Seq<SelectableView>
    decreases offers.len(),
{
    if offers.len() == 0 {
        Seq::empty()
    } else {
        let before = chosen(offers.drop_last());
        let (offer, valid) = offers.last();
        if valid && !is_taken(offers.drop_last(), offer.id) && is_label(
            offer.name,
            NAME_LIMIT as nat,
        ) {
            before.push(offer)
        } else {
            before
        }
    }
}

/// The offers of apps, each with whether its identifier is valid.
pub open spec fn judged_apps(offers: Seq<SelectableView>) -> Seq<(SelectableView, bool)> {
    offers.map_values(
        |offer: SelectableView| (offer, is_label(offer.id, APP_ID_LIMIT as nat)),
    )
}

/// What a row of a list offers.
fn offer(listing: Listing, row: &Json) -> (offer: Option<Selectable>)
    ensures
        match offer {
            Some(offer) => row_offer(listing, row@) == Some(offer@),
            None => row_offer(listing, row@) is None,
        },
{
    let id = match row.text_at("id") {
        Some(id) => id,
        None => {
            if listing == Listing::Apps {
                return None;
            }
            match row.text_at("appId") {
                Some(id) => id,
                None => {
                    return None;
                },
            }
        },
    };
    let name_key = match listing {
        Listing::Inputs => "label",
        Listing::Apps => "title",
    };
    let name = match row.text_at(name_key) {
        Some(name) => name,
        None => id,
    };
    Some(Selectable { id: id.to_owned(), name: name.to_owned() })
}

/// What the rows of a list offer, in their order.
pub fn read_offers(listing: Listing, rows: &Vec<Json>) -> (offers_read: Vec<Selectable>)
    ensures
        selectable_views(offers_read@) == offers(listing, list_view(rows@)),
{
    let mut found: Vec<Selectable> = Vec::new();
    let ghost views = list_view(rows@);
    proof {
        list_view_len(rows@);
        assert(selectable_views(found@) == offers(listing, views.take(0)));
    }
    let mut at: usize = 0;
    while at < rows.len()
        invariant
            at <= rows@.len(),
            views == list_view(rows@),
            views.len() == rows@.len(),
            selectable_views(found@) == offers(listing, views.take(at as int)),
        decreases rows@.len() - at,
    {
        proof {
            list_view_at(rows@, at as int);
            assert(views.take(at + 1).drop_last() == views.take(at as int));
        }
        let ghost before = found@;
        match offer(listing, &rows[at]) {
            Some(offer) => {
                found.push(offer);
                assert(selectable_views(found@) == selectable_views(before).push(offer@));
            },
            None => {},
        }
        at += 1;
    }
    assert(views.take(at as int) == views);
    found
}

/// Whether a valid offer with this identifier is among the first `end` offers.
fn taken(offers: &Vec<(Selectable, bool)>, end: usize, id: &String) -> (found: bool)
    requires
        end <= offers@.len(),
    ensures
        found == is_taken(judged_views(offers@).take(end as int), id@),
{
    let ghost views = judged_views(offers@).take(end as int);
    let mut at: usize = 0;
    while at < end
        invariant
            at <= end <= offers@.len(),
            views == judged_views(offers@).take(end as int),
            forall|i: int| 0 <= i < at ==> !((#[trigger] views[i]).1 && views[i].0.id == id@),
        decreases end - at,
    {
        if offers[at].1 && offers[at].0.id.eq(id) {
            assert(views[at as int].1 && views[at as int].0.id == id@);
            return true;
        }
        at += 1;
    }
    false
}

/// The offers that are shown: the first valid one of each identifier, if its name can be shown.
pub fn choose_offers(offers: &Vec<(Selectable, bool)>) -> (shown: Vec<Selectable>)
    ensures
        selectable_views(shown@) == chosen(judged_views(offers@)),
{
    let mut shown: Vec<Selectable> = Vec::new();
    let ghost views = judged_views(offers@);
    assert(selectable_views(shown@) == chosen(views.take(0)));
    let mut at: usize = 0;
    while at < offers.len()
        invariant
            at <= offers@.len(),
            views == judged_views(offers@),
            selectable_views(shown@) == chosen(views.take(at as int)),
        decreases offers@.len() - at,
    {
        assert(views.take(at + 1).drop_last() == views.take(at as int));
        let offer = &offers[at].0;
        let ghost before = shown@;
        if offers[at].1 && !taken(offers, at, &offer.id) && label(offer.name.as_str(), NAME_LIMIT) {
            shown.push(Selectable { id: offer.id.clone(), name: offer.name.clone() });
            assert(selectable_views(shown@) == selectable_views(before).push(offer@));
        }
        at += 1;
    }
    assert(views.take(at as int) == views);
    shown
}

/// The offers of apps, each with whether its identifier is valid.
pub fn judge_apps(offers: Vec<Selectable>) -> (judged: Vec<(Selectable, bool)>)
    ensures
        judged_views(judged@) == judged_apps(selectable_views(offers@)),
{
    let mut judged: Vec<(Selectable, bool)> = Vec::new();
    let mut at: usize = 0;
    while at < offers.len()
        invariant
            at <= offers@.len(),
            judged_views(judged@) == judged_apps(selectable_views(offers@).take(at as int)),
        decreases offers@.len() - at,
    {
        let ghost before = judged@;
        let offer = &offers[at];
        let valid = label(offer.id.as_str(), APP_ID_LIMIT);
        judged.push((Selectable { id: offer.id.clone(), name: offer.name.clone() }, valid));
        proof {
            let done = selectable_views(offers@).take(at as int);
            assert(judged_views(judged@) == judged_views(before).push((offer@, valid)));
            assert(selectable_views(offers@).take(at + 1) == done.push(offer@));
            assert(judged_apps(done.push(offer@)) == judged_apps(done).push((offer@, valid)));
        }
        at += 1;
    }
    assert(selectable_views(offers@).take(at as int) == selectable_views(offers@));
    judged
}

} // verus!
