//! The item list of the result region.
//!
//! Each item of an inventory becomes one entry of the list, an [`ItemCard`],
//! which shows the item's name with a link to its catalogue page, its
//! thumbnail, its price and, for a serialised item only, a badge with the
//! serial number. The entries stand in the order in which the items came. An
//! inventory without items shows a placeholder in place of the list.

use vstd::prelude::*;
use vstd::string::*;

use crate::api::collectible_views;
use crate::api::CollectibleView;
use crate::api::CollectiblesAccountValueCollectible;
use crate::decimal::decimal_string;
use crate::decimal::decimal_text;
use crate::decimal::decimal_value;
use crate::decimal::lemma_decimal_text_denotes;

verus! {

/// The address of the catalogue, to which an item's number is appended.
pub const CATALOG_URL: &'static str = "https://www.roblox.com/catalog/";

/// What follows the price of an item.
pub const PRICE_UNIT: &'static str = " robux";

/// What stands before the serial number on a badge.
pub const SERIAL_MARK: &'static str = "#";

/// What the list shows when the inventory holds no item.
pub const NO_ITEMS: &'static str = "No items found :(";

/// The markup of an entry up to the address of its catalogue page.
pub const CARD_BEFORE_LINK: &'static str =
    "<div class='collectible'>\n                            <div class='collectible-title'>\n                                <a href='";

/// From the address of the catalogue page to the item's name.
pub const CARD_BEFORE_TITLE: &'static str =
    "' target='_blank'>";

/// From the item's name to the alternative text of its thumbnail.
pub const CARD_BEFORE_ALT: &'static str =
    "</a>\n                            </div>\n\n                            <div class='collectible-thumbnail'>\n                                <img class='no-select' alt='";

/// From the alternative text of the thumbnail to its address.
pub const CARD_BEFORE_SOURCE: &'static str =
    "' src='";

/// From the address of the thumbnail to the place of the serial badge.
pub const CARD_BEFORE_BADGE: &'static str =
    "'>\n                                ";

/// From the place of the serial badge to the price.
pub const CARD_BEFORE_PRICE: &'static str =
    "\n                            </div>\n\n                            <div class='collectible-robux'>\n                                ";

/// The markup of an entry after its price.
pub const CARD_CLOSING: &'static str =
    "\n                            </div>\n                        </div>";

/// The markup that opens a serial badge.
pub const BADGE_OPENING: &'static str = "<div class='collectible-serialnumber'>";

/// The markup that closes a serial badge.
pub const BADGE_CLOSING: &'static str = "</div>";

/// One entry of the item list.
#[derive(Debug, PartialEq, Eq)]
pub struct ItemCard {
    pub name: String,
    /// The address of the item's page in the catalogue.
    pub catalog_link: String,
    /// The address of the item's picture.
    pub thumbnail: String,
    /// The price with its unit.
    pub price_text: String,
    /// The text of the serial badge. An item without serial number has no
    /// badge.
    pub serial_badge: Option<String>,
}

/// The mathematical content of an [`ItemCard`].
pub struct ItemCardView {
    pub name: Seq<char>,
    pub catalog_link: Seq<char>,
    pub thumbnail: Seq<char>,
    pub price_text: Seq<char>,
    pub serial_badge: Option<Seq<char>>,
}

impl View for ItemCard {
    type V = ItemCardView;

    open spec fn view(&self) -> ItemCardView {
        ItemCardView {
            name: self.name@,
            catalog_link: self.catalog_link@,
            thumbnail: self.thumbnail@,
            price_text: self.price_text@,
            serial_badge: match self.serial_badge {
                Some(badge) => Some(badge@),
                None => None,
            },
        }
    }
}

/// The contents of a list of entries, in the order of the list.
pub open spec fn card_views(cards: Seq<ItemCard>) -> Seq<ItemCardView> {
    Seq::new(cards.len(), |i: int| cards[i]@)
}

/// The text of the badge of an item with serial number `serial`.
pub open spec fn serial_badge_text(serial: u64) -> Seq<char> {
    SERIAL_MARK@ + decimal_text(serial as nat)
}

/// The entry that shows `item`.
pub open spec fn card_of(item: CollectibleView) -> ItemCardView {
    ItemCardView {
        name: item.name,
        catalog_link: CATALOG_URL@ + decimal_text(item.id as nat),
        thumbnail: item.thumbnail,
        price_text: decimal_text(item.price as nat) + PRICE_UNIT@,
        serial_badge: match item.serialnumber {
            Some(serial) => Some(serial_badge_text(serial)),
            None => None,
        },
    }
}

/// The entries that show `items`: one for each item, in the same order.
pub open spec fn cards_of(items: Seq<CollectibleView>) -> Seq<ItemCardView> {
    Seq::new(items.len(), |i: int| card_of(items[i]))
}

/// The markup of a serial badge, which is empty where there is no badge.
pub open spec fn badge_markup(badge: Option<Seq<char>>) -> Seq<char> {
    match badge {
        Some(text) => BADGE_OPENING@ + text + BADGE_CLOSING@,
        None => Seq::empty(),
    }
}

/// The markup of one entry.
pub open spec fn card_markup(card: ItemCardView) -> Seq<char> {
    CARD_BEFORE_LINK@ + card.catalog_link + CARD_BEFORE_TITLE@ + card.name + CARD_BEFORE_ALT@
        + card.name + CARD_BEFORE_SOURCE@ + card.thumbnail + CARD_BEFORE_BADGE@ + badge_markup(
        card.serial_badge,
    ) + CARD_BEFORE_PRICE@ + card.price_text + CARD_CLOSING@
}

/// The markup of the entries `cards`, one after the other.
pub open spec fn cards_markup(cards: Seq<ItemCardView>) -> Seq<char>
    decreases cards.len(),
{
    if cards.len() == 0 {
        Seq::empty()
    } else {
        cards_markup(cards.drop_last()) + card_markup(cards.last())
    }
}

/// The markup of the item list: the placeholder where there is no entry, else
/// the entries in their order.
pub open spec fn inventory_markup_of(cards: Seq<ItemCardView>) -> Seq<char> {
    if cards.len() == 0 {
        NO_ITEMS@
    } else {
        cards_markup(cards)
    }
}

impl ItemCard {
    /// The entry that shows `item`. It has a serial badge exactly when the item
    /// has a serial number, and the badge then shows that number.
    pub fn new(item: &CollectiblesAccountValueCollectible) -> (card: ItemCard)
        ensures
            card@ == card_of(item@),
            card.serial_badge is Some <==> item.serialnumber is Some,
    {
        let mut catalog_link = String::from_str(CATALOG_URL);
        catalog_link.append(decimal_string(item.id).as_str());
        let mut price_text = decimal_string(item.price);
        price_text.append(PRICE_UNIT);
        let serial_badge = match item.serialnumber {
            Some(serial) => {
                let mut badge = String::from_str(SERIAL_MARK);
                badge.append(decimal_string(serial).as_str());
                Some(badge)
            },
            None => None,
        };
        ItemCard {
            name: item.name.clone(),
            catalog_link,
            thumbnail: item.thumbnail.clone(),
            price_text,
            serial_badge,
        }
    }

    /// The markup of this entry.
    pub fn markup(&self) -> (markup: String)
        ensures
            markup@ == card_markup(self@),
    {
        let mut markup = String::from_str(CARD_BEFORE_LINK);
        markup.append(self.catalog_link.as_str());
        markup.append(CARD_BEFORE_TITLE);
        markup.append(self.name.as_str());
        markup.append(CARD_BEFORE_ALT);
        markup.append(self.name.as_str());
        markup.append(CARD_BEFORE_SOURCE);
        markup.append(self.thumbnail.as_str());
        markup.append(CARD_BEFORE_BADGE);
        let ghost before_badge = markup@;
        if let Some(badge) = &self.serial_badge {
            markup.append(BADGE_OPENING);
            markup.append(badge.as_str());
            markup.append(BADGE_CLOSING);
        }
        assert(markup@ =~= before_badge + badge_markup(self@.serial_badge));
        markup.append(CARD_BEFORE_PRICE);
        markup.append(self.price_text.as_str());
        markup.append(CARD_CLOSING);
        markup
    }
}

/// The entries that show `items`: one for each item, in the same order.
pub fn item_cards(items: &Vec<CollectiblesAccountValueCollectible>) -> (cards: Vec<ItemCard>)
    ensures
        card_views(cards@) == cards_of(collectible_views(items@)),
        cards.len() == items.len(),
{
    let mut cards: Vec<ItemCard> = Vec::new();
    let mut i: usize = 0;
    while i < items.len()
        invariant
            i <= items.len(),
            cards.len() == i,
            forall|k: int| 0 <= k < i ==> (#[trigger] cards[k])@ == card_of(items[k]@),
        decreases items.len() - i,
    {
        cards.push(ItemCard::new(&items[i]));
        i = i + 1;
    }
    cards
}

/// The markup of the item list: the placeholder where `cards` is empty, else
/// the markup of each entry in the order of `cards`.
pub fn inventory_markup(cards: &Vec<ItemCard>) -> (markup: String)
    ensures
        markup@ == inventory_markup_of(card_views(cards@)),
{
    if cards.len() == 0 {
        return String::from_str(NO_ITEMS);
    }
    let ghost views = card_views(cards@);
    let mut markup = String::new();
    let mut i: usize = 0;
    while i < cards.len()
        invariant
            i <= cards.len(),
            views == card_views(cards@),
            markup@ == cards_markup(views.take(i as int)),
        decreases cards.len() - i,
    {
        let entry = cards[i].markup();
        markup.append(entry.as_str());
        assert(views.take(i + 1).drop_last() =~= views.take(i as int));
        i = i + 1;
    }
    assert(views.take(cards.len() as int) =~= views);
    markup
}

/// An item has a serial badge exactly when it has a serial number. The badge
/// then shows the mark followed by digits that denote the serial number, and
/// its markup is part of the entry; without a badge nothing stands in its
/// place.
pub proof fn lemma_badge_follows_serial_number(item: CollectibleView)
    ensures
        card_of(item).serial_badge is Some <==> item.serialnumber is Some,
        item.serialnumber matches Some(serial) ==> {
            let badge = card_of(item).serial_badge->Some_0;
            &&& badge == SERIAL_MARK@ + decimal_text(serial as nat)
            &&& decimal_value(badge.skip(SERIAL_MARK@.len() as int)) == serial
        },
        item.serialnumber is None ==> badge_markup(card_of(item).serial_badge).len() == 0,
{
    if let Some(serial) = item.serialnumber {
        let digits = decimal_text(serial as nat);
        lemma_decimal_text_denotes(serial as nat);
        assert((SERIAL_MARK@ + digits).skip(SERIAL_MARK@.len() as int) =~= digits);
    }
}

} // verus!
