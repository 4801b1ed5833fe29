use std::collections::HashMap;

use tip_streamers::contract::{TipStreamers, Transfer};
use tip_streamers::errors::Error;
use tip_streamers::ident::Ident;

/// Applies a list of transfers to an in-memory balance book keyed by
/// (asset, holder).
fn apply_transfers(balances: &mut HashMap<(u64, u64), i128>, transfers: &Vec<Transfer>) {
    for t in transfers.iter() {
        let from = balances.entry((t.asset.id, t.from.id)).or_insert(0);
        *from -= t.amount;
        let to = balances.entry((t.asset.id, t.to.id)).or_insert(0);
        *to += t.amount;
    }
}

fn balance(balances: &HashMap<(u64, u64), i128>, asset: Ident, holder: Ident) -> i128 {
    *balances.get(&(asset.id, holder.id)).unwrap_or(&0)
}

#[test]
fn init_and_get_config() {
    let streamer = Ident::new(1);
    let platform = Ident::new(2);
    let token_id = Ident::new(10);

    let mut c = TipStreamers::new();
    c.init(streamer, streamer, platform, 300u32, vec![token_id]).unwrap();

    let (s, p, fee, assets) = c.get_config().unwrap();
    assert_eq!(s, streamer);
    assert_eq!(p, platform);
    assert_eq!(fee, 300u32);
    assert_eq!(assets.len(), 1);
    assert_eq!(assets[0], token_id);
}

#[test]
fn tip_happy_path_split_and_event() {
    let streamer = Ident::new(1);
    let platform = Ident::new(2);
    let payer = Ident::new(4);
    let token_id = Ident::new(10);

    let mut balances: HashMap<(u64, u64), i128> = HashMap::new();
    balances.insert((token_id.id, payer.id), 10_000_000i128);

    let mut c = TipStreamers::new();
    c.init(streamer, streamer, platform, 1000u32, vec![token_id]).unwrap();

    let bp = balance(&balances, token_id, payer);
    let bs = balance(&balances, token_id, streamer);
    let bpl = balance(&balances, token_id, platform);

    let amount: i128 = 1_000_000;
    let ts: u64 = 1_700_000_000;
    let receipt = c
        .tip(payer, payer, token_id, amount, "Alice".to_string(), "gm!".to_string(), ts)
        .unwrap();
    apply_transfers(&mut balances, &receipt.transfers);

    let ev = &receipt.event;
    assert!(!ev.kind.is_empty(), "No events emitted at all");
    assert_eq!(ev.kind, "TIP");
    assert_eq!(ev.asset, token_id, "TipEmitted event not found (topics)");
    assert_eq!(ev.streamer, streamer, "TipEmitted event not found (data)");

    assert_eq!(ev.amount, amount);
    assert_eq!(ev.fee, 100_000);
    assert_eq!(ev.nickname, "Alice".to_string());
    assert_eq!(ev.message, "gm!".to_string());
    assert_eq!(ev.payer, payer);
    assert!(ev.ts > 0);
    assert_eq!(ev.donation_id.len(), 32);
    assert_eq!(receipt.donation_id.len(), 32);
    assert_eq!(ev.donation_id, receipt.donation_id);

    let ap = balance(&balances, token_id, payer);
    let as_ = balance(&balances, token_id, streamer);
    let apl = balance(&balances, token_id, platform);

    assert_eq!(bp - ap, amount, "payer paid the total amount");
    assert_eq!(as_ - bs, 900_000, "streamer received net amount");
    assert_eq!(apl - bpl, 100_000, "platform received the fee");
}

#[test]
fn add_and_remove_asset() {
    let streamer = Ident::new(1);
    let platform = Ident::new(2);
    let token_a = Ident::new(10);
    let token_b = Ident::new(11);

    let mut c = TipStreamers::new();
    c.init(streamer, streamer, platform, 200u32, vec![token_a]).unwrap();

    c.add_asset(streamer, token_b).unwrap();
    let (_, _, _, assets_after_add) = c.get_config().unwrap();
    assert_eq!(assets_after_add.len(), 2);

    c.remove_asset(streamer, token_a).unwrap();
    let (_, _, _, assets_after_remove) = c.get_config().unwrap();
    assert_eq!(assets_after_remove.len(), 1);
    assert_eq!(assets_after_remove[0], token_b);
}

#[test]
fn init_deduplicates_assets_first_seen_order() {
    let streamer = Ident::new(1);
    let platform = Ident::new(2);
    let a = Ident::new(10);
    let b = Ident::new(11);
    let d = Ident::new(12);

    let mut c = TipStreamers::new();
    c.init(streamer, streamer, platform, 100u32, vec![a, b, a, d, b, a]).unwrap();

    let (_, _, _, assets) = c.get_config().unwrap();
    assert_eq!(assets, vec![a, b, d]);
}

#[test]
fn init_twice_always_fails() {
    let streamer = Ident::new(1);
    let platform = Ident::new(2);
    let a = Ident::new(10);
    let b = Ident::new(11);

    let mut c = TipStreamers::new();
    c.init(streamer, streamer, platform, 100u32, vec![a]).unwrap();

    // Same arguments again.
    assert_eq!(
        c.init(streamer, streamer, platform, 100u32, vec![a]),
        Err(Error::AlreadyInitialized)
    );
    // Entirely different arguments.
    let other = Ident::new(9);
    assert_eq!(
        c.init(other, other, platform, 0u32, vec![b]),
        Err(Error::AlreadyInitialized)
    );
    // Even invalid arguments: the initialized check comes first.
    assert_eq!(
        c.init(streamer, streamer, platform, 20000u32, vec![]),
        Err(Error::AlreadyInitialized)
    );
}

#[test]
fn init_validates_fee_and_assets() {
    let streamer = Ident::new(1);
    let platform = Ident::new(2);
    let a = Ident::new(10);

    let mut c = TipStreamers::new();
    assert_eq!(
        c.init(streamer, streamer, platform, 10001u32, vec![a]),
        Err(Error::BadFee)
    );
    assert_eq!(
        c.init(streamer, streamer, platform, 100u32, vec![]),
        Err(Error::AssetNotAllowed)
    );
    // Caller other than the declared streamer.
    assert_eq!(
        c.init(platform, streamer, platform, 100u32, vec![a]),
        Err(Error::NotAuthorized)
    );
    // Boundary value: exactly 10000 basis points is admissible.
    c.init(streamer, streamer, platform, 10000u32, vec![a]).unwrap();
}

#[test]
fn mutations_require_streamer_authorization() {
    let streamer = Ident::new(1);
    let platform = Ident::new(2);
    let intruder = Ident::new(3);
    let a = Ident::new(10);
    let b = Ident::new(11);

    let mut c = TipStreamers::new();
    c.init(streamer, streamer, platform, 100u32, vec![a]).unwrap();

    assert_eq!(c.set_fee_bps(intruder, 50u32), Err(Error::NotAuthorized));
    assert_eq!(c.add_asset(intruder, b), Err(Error::NotAuthorized));
    assert_eq!(c.remove_asset(intruder, a), Err(Error::NotAuthorized));
    // Even the platform identity may not mutate.
    assert_eq!(c.set_fee_bps(platform, 50u32), Err(Error::NotAuthorized));

    // Nothing changed.
    let (s, p, fee, assets) = c.get_config().unwrap();
    assert_eq!(s, streamer);
    assert_eq!(p, platform);
    assert_eq!(fee, 100u32);
    assert_eq!(assets, vec![a]);

    // The streamer itself may.
    c.set_fee_bps(streamer, 50u32).unwrap();
    let (_, _, fee2, _) = c.get_config().unwrap();
    assert_eq!(fee2, 50u32);
}

#[test]
fn whitelist_refuses_duplicates_and_missing_members() {
    let streamer = Ident::new(1);
    let platform = Ident::new(2);
    let a = Ident::new(10);
    let b = Ident::new(11);

    let mut c = TipStreamers::new();
    c.init(streamer, streamer, platform, 100u32, vec![a]).unwrap();

    assert_eq!(c.add_asset(streamer, a), Err(Error::AssetAlreadyExists));
    assert_eq!(c.remove_asset(streamer, b), Err(Error::AssetNotAllowed));
    assert_eq!(c.set_fee_bps(streamer, 10001u32), Err(Error::BadFee));
}

#[test]
fn operations_before_init_fail() {
    let streamer = Ident::new(1);
    let payer = Ident::new(4);
    let a = Ident::new(10);

    let mut c = TipStreamers::new();
    assert_eq!(c.get_config(), Err(Error::NotInitialized));
    assert_eq!(c.set_fee_bps(streamer, 100u32), Err(Error::NotInitialized));
    assert_eq!(c.add_asset(streamer, a), Err(Error::NotInitialized));
    assert_eq!(c.remove_asset(streamer, a), Err(Error::NotInitialized));
    match c.tip(payer, payer, a, 5i128, "n".to_string(), "m".to_string(), 1u64) {
        Err(e) => assert_eq!(e, Error::NotInitialized),
        Ok(_) => panic!("tip succeeded on an uninitialized instance"),
    }
}

#[test]
fn tip_rejects_bad_amount_asset_and_caller() {
    let streamer = Ident::new(1);
    let platform = Ident::new(2);
    let payer = Ident::new(4);
    let a = Ident::new(10);
    let unknown = Ident::new(99);

    let mut c = TipStreamers::new();
    c.init(streamer, streamer, platform, 100u32, vec![a]).unwrap();

    match c.tip(streamer, payer, a, 5i128, "n".to_string(), "m".to_string(), 1u64) {
        Err(e) => assert_eq!(e, Error::NotAuthorized),
        Ok(_) => panic!("tip succeeded for a caller other than the payer"),
    }
    match c.tip(payer, payer, a, 0i128, "n".to_string(), "m".to_string(), 1u64) {
        Err(e) => assert_eq!(e, Error::ZeroAmount),
        Ok(_) => panic!("tip succeeded with a zero amount"),
    }
    match c.tip(payer, payer, a, -7i128, "n".to_string(), "m".to_string(), 1u64) {
        Err(e) => assert_eq!(e, Error::ZeroAmount),
        Ok(_) => panic!("tip succeeded with a negative amount"),
    }
    match c.tip(payer, payer, unknown, 5i128, "n".to_string(), "m".to_string(), 1u64) {
        Err(e) => assert_eq!(e, Error::AssetNotAllowed),
        Ok(_) => panic!("tip succeeded in an asset outside the whitelist"),
    }
}

#[test]
fn whitelist_exhaustion_blocks_tips_until_restored() {
    let streamer = Ident::new(1);
    let platform = Ident::new(2);
    let payer = Ident::new(4);
    let a = Ident::new(10);

    let mut c = TipStreamers::new();
    c.init(streamer, streamer, platform, 100u32, vec![a]).unwrap();

    // Removing the sole accepted asset is allowed and empties the whitelist.
    c.remove_asset(streamer, a).unwrap();
    let (_, _, _, assets) = c.get_config().unwrap();
    assert_eq!(assets.len(), 0);

    // Every subsequent tip fails, in the removed asset and in any other.
    match c.tip(payer, payer, a, 5i128, "n".to_string(), "m".to_string(), 1u64) {
        Err(e) => assert_eq!(e, Error::AssetNotAllowed),
        Ok(_) => panic!("tip succeeded against an empty whitelist"),
    }
    let other = Ident::new(42);
    match c.tip(payer, payer, other, 5i128, "n".to_string(), "m".to_string(), 1u64) {
        Err(e) => assert_eq!(e, Error::AssetNotAllowed),
        Ok(_) => panic!("tip succeeded against an empty whitelist"),
    }

    // Adding an asset back restores tipping.
    c.add_asset(streamer, a).unwrap();
    c.tip(payer, payer, a, 5i128, "n".to_string(), "m".to_string(), 1u64).unwrap();
}

#[test]
fn zero_fee_tip_transfers_only_to_streamer() {
    let streamer = Ident::new(1);
    let platform = Ident::new(2);
    let payer = Ident::new(4);
    let a = Ident::new(10);

    let mut c = TipStreamers::new();
    c.init(streamer, streamer, platform, 0u32, vec![a]).unwrap();

    let receipt = c
        .tip(payer, payer, a, 1_000_000i128, "n".to_string(), "m".to_string(), 7u64)
        .unwrap();
    assert_eq!(receipt.event.fee, 0);
    assert_eq!(receipt.transfers.len(), 1);
    assert_eq!(receipt.transfers[0].from, payer);
    assert_eq!(receipt.transfers[0].to, streamer);
    assert_eq!(receipt.transfers[0].amount, 1_000_000);
    assert_eq!(receipt.transfers[0].asset, a);
}
