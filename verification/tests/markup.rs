use account_value::api::CollectiblesAccountValueCollectible;
use account_value::markup::inventory_markup;
use account_value::markup::item_cards;
use account_value::markup::ItemCard;

fn hat(serial: Option<u64>) -> CollectiblesAccountValueCollectible {
    CollectiblesAccountValueCollectible {
        name: "Red Hat".to_string(),
        price: 1500,
        id: 42,
        serialnumber: serial,
        thumbnail: "https://img.example/hat.png".to_string(),
    }
}

fn expected_markup(id: &str, name: &str, thumbnail: &str, badge: &str, price: &str) -> String {
    format!(
        "<div class='collectible'>
                            <div class='collectible-title'>
                                <a href='https://www.roblox.com/catalog/{id}' target='_blank'>{name}</a>
                            </div>

                            <div class='collectible-thumbnail'>
                                <img class='no-select' alt='{name}' src='{thumbnail}'>
                                {badge}
                            </div>

                            <div class='collectible-robux'>
                                {price} robux
                            </div>
                        </div>"
    )
}

#[test]
fn a_serial_number_shows_as_a_badge() {
    let card = ItemCard::new(&hat(Some(7)));
    assert_eq!(card.serial_badge, Some("#7".to_string()));
    assert!(card.markup().contains("<div class='collectible-serialnumber'>#7</div>"));
}

#[test]
fn an_item_without_serial_number_has_no_badge() {
    let card = ItemCard::new(&hat(None));
    assert_eq!(card.serial_badge, None);
    assert!(!card.markup().contains("collectible-serialnumber"));
    assert!(!card.markup().contains('#'));
}

#[test]
fn the_badge_follows_presence_not_value() {
    let card = ItemCard::new(&hat(Some(0)));
    assert_eq!(card.serial_badge, Some("#0".to_string()));
    let card = ItemCard::new(&hat(Some(u64::MAX)));
    assert_eq!(card.serial_badge, Some("#18446744073709551615".to_string()));
}

#[test]
fn a_card_shows_name_link_thumbnail_and_price() {
    let card = ItemCard::new(&hat(None));
    assert_eq!(
        card,
        ItemCard {
            name: "Red Hat".to_string(),
            catalog_link: "https://www.roblox.com/catalog/42".to_string(),
            thumbnail: "https://img.example/hat.png".to_string(),
            price_text: "1500 robux".to_string(),
            serial_badge: None,
        }
    );
}

#[test]
fn the_markup_of_a_card_without_badge() {
    let card = ItemCard::new(&hat(None));
    assert_eq!(
        card.markup(),
        expected_markup("42", "Red Hat", "https://img.example/hat.png", "", "1500")
    );
}

#[test]
fn the_markup_of_a_card_with_badge() {
    let card = ItemCard::new(&hat(Some(7)));
    assert_eq!(
        card.markup(),
        expected_markup(
            "42",
            "Red Hat",
            "https://img.example/hat.png",
            "<div class='collectible-serialnumber'>#7</div>",
            "1500"
        )
    );
}

#[test]
fn an_empty_inventory_shows_the_placeholder() {
    let cards = item_cards(&Vec::new());
    assert!(cards.is_empty());
    assert_eq!(inventory_markup(&cards), "No items found :(");
}

#[test]
fn the_entries_stand_in_the_order_of_the_items() {
    let mut first = hat(None);
    first.name = "Zebra".to_string();
    first.id = 3;
    let mut second = hat(Some(12));
    second.name = "Apple".to_string();
    second.id = 1;
    let items = vec![first, second];
    let cards = item_cards(&items);
    assert_eq!(cards.len(), 2);
    assert_eq!(cards[0].name, "Zebra");
    assert_eq!(cards[1].name, "Apple");
    let markup = inventory_markup(&cards);
    let expected = format!(
        "{}{}",
        expected_markup("3", "Zebra", "https://img.example/hat.png", "", "1500"),
        expected_markup(
            "1",
            "Apple",
            "https://img.example/hat.png",
            "<div class='collectible-serialnumber'>#12</div>",
            "1500"
        )
    );
    assert_eq!(markup, expected);
}

#[test]
fn one_entry_for_each_item() {
    let items = vec![hat(None), hat(Some(1)), hat(None)];
    let cards = item_cards(&items);
    assert_eq!(cards.len(), 3);
    let markup = inventory_markup(&cards);
    assert_eq!(markup.matches("<div class='collectible'>").count(), 3);
    assert_eq!(markup.matches("collectible-serialnumber").count(), 1);
}
