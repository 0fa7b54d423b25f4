use anchor_lang::prelude::borsh::BorshSerialize;
use anchor_lang::prelude::Pubkey;
use myepicproject::address::Address;
use myepicproject::instructions::{add_gif, start_stuff_off, AddGif, Caller, StartStuffOff};
use myepicproject::state::{BaseAccount, BASE_ACCOUNT_SPACE, TAG_LEN};

/// The bytes of the record as the program stores it: the tag, then the
/// fields in their order.
fn stored_len(account: &BaseAccount) -> usize {
    let entries: Vec<(String, Pubkey)> = account
        .gif_list
        .iter()
        .map(|item| (item.gif_link.clone(), Pubkey::new_from_array(item.user_address.bytes)))
        .collect();
    let owner = Pubkey::new_from_array(account.user_address.bytes);
    let fields = (account.total_gifs, entries, owner).try_to_vec().unwrap();
    TAG_LEN + fields.len()
}

fn record_with(links: &[&str]) -> BaseAccount {
    let user = Caller { key: Address { bytes: [7u8; 32] }, is_signer: true };
    let mut ctx = StartStuffOff { base_account: None, user };
    assert_eq!(start_stuff_off(&mut ctx), Ok(()));
    let mut ctx = AddGif { base_account: ctx.base_account, user };
    for link in links {
        assert_eq!(add_gif(&mut ctx, link.to_string()), Ok(()));
    }
    ctx.base_account.unwrap()
}

#[test]
fn empty_record_takes_its_overhead() {
    let account = record_with(&[]);
    assert_eq!(stored_len(&account), 52);
    assert_eq!(account.space_left(), Some(BASE_ACCOUNT_SPACE - stored_len(&account)));
}

#[test]
fn space_left_is_what_the_stored_record_leaves() {
    let account = record_with(&["ipfs://abc", "", "\u{1f600}\u{e9}\u{20ac}", "https://example.org/a.gif"]);
    assert_eq!(stored_len(&account), 52 + 4 * 36 + 10 + 0 + 9 + 25);
    assert_eq!(account.space_left(), Some(BASE_ACCOUNT_SPACE - stored_len(&account)));
}

#[test]
fn full_record_is_stored_in_exactly_its_space() {
    let link = "a".repeat(8912);
    let account = record_with(&[&link]);
    assert_eq!(stored_len(&account), BASE_ACCOUNT_SPACE);
    assert_eq!(account.space_left(), Some(0));
}
