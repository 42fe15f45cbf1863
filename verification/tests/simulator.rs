use polyshark::execution::ExecutionEngine;
use polyshark::fees::FeeModel;
use polyshark::fills::FillModel;
use polyshark::latency::LatencyModel;
use polyshark::types::{ExecutionResult, OrderBook, PriceLevel, Side};
use polyshark::wallet::Wallet;

fn two_sided_book() -> OrderBook {
    OrderBook {
        token_id: "t1".to_string(),
        bids: vec![PriceLevel { price: 500_000, size: 100_000_000 }],
        asks: vec![
            PriceLevel { price: 520_000, size: 100_000_000 },
            PriceLevel { price: 530_000, size: 200_000_000 },
        ],
        timestamp: 0,
    }
}

fn engine(taker_fee_bps: u32, std: u64) -> ExecutionEngine {
    ExecutionEngine::new(
        FeeModel { maker_fee_bps: 0, taker_fee_bps },
        LatencyModel::new(50, std),
    )
}

#[test]
fn test_execution_permission_logic() {
    let fee_model = FeeModel { maker_fee_bps: 0, taker_fee_bps: 0 };
    let latency_model = LatencyModel::new(0, 0);
    let engine = ExecutionEngine::new(fee_model, latency_model);

    let mut wallet = Wallet::new(10_000_000, 0);
    let book = OrderBook {
        token_id: "t1".to_string(),
        bids: vec![],
        asks: vec![PriceLevel { price: 500_000, size: 100_000_000 }],
        timestamp: 0,
    };

    let res = engine.execute(&book, 10_000_000, Side::Buy, &mut wallet, 0, 0);
    assert!(res.is_some());
    assert_eq!(wallet.spent_today(), 5_000_000);

    let res_fail = engine.execute(&book, 12_000_000, Side::Buy, &mut wallet, 0, 0);
    assert!(res_fail.is_none());
    assert_eq!(wallet.spent_today(), 5_000_000);
}

#[test]
fn fill_reports_price_fee_slippage_and_cost() {
    let mut wallet = Wallet::new(1_000_000_000, 0);
    let result = engine(200, 0)
        .execute(&two_sided_book(), 150_000_000, Side::Buy, &mut wallet, 0, 77)
        .unwrap();
    assert_eq!(
        result,
        ExecutionResult {
            filled_size: 150_000_000,
            execution_price: 523_333,
            fee_paid: 1_569_999,
            slippage: 26_143,
            total_cost: 80_069_949,
            success: true,
        }
    );
    assert_eq!(wallet.spent_today(), 80_069_949);
    assert_eq!(wallet.total_trades(), 1);
    assert_eq!(wallet.winning_trades(), 1);
    let held = wallet.positions();
    assert_eq!(held.len(), 1);
    assert_eq!(held[0].token_id, "t1");
    assert_eq!(held[0].side, Side::Buy);
    assert_eq!(held[0].size, 150_000_000);
    assert_eq!(held[0].entry_price, 523_333);
    assert_eq!(held[0].entry_time, 77);
}

#[test]
fn adverse_move_scales_with_the_draw() {
    let book = two_sided_book();
    let mut up = Wallet::new(1_000_000_000, 0);
    let result = engine(0, 1_000).execute(&book, 150_000_000, Side::Buy, &mut up, 2_000_000, 0);
    assert_eq!(result.unwrap().execution_price, 524_379);
    let mut down = Wallet::new(1_000_000_000, 0);
    let result = engine(0, 1_000).execute(&book, 150_000_000, Side::Buy, &mut down, -2_000_000, 0);
    assert_eq!(result.unwrap().execution_price, 522_287);
}

#[test]
fn zero_deviation_means_no_move() {
    let model = LatencyModel::new(50, 0);
    assert_eq!(model.apply(523_333, 3_000_000), (523_333, 50));
    assert_eq!(model.apply(523_333, i64::MIN), (523_333, 50));
    assert_eq!(model.apply(523_333, i64::MAX), (523_333, 50));
}

#[test]
fn latency_model_moves_price_both_ways() {
    let model = LatencyModel::new(120, 10_000);
    assert_eq!(model.apply(500_000, 1_000_000), (505_000, 120));
    assert_eq!(model.apply(500_000, -1_000_000), (495_000, 120));
    assert_eq!(model.apply(500_000, 0), (500_000, 120));
    assert_eq!(model.apply(500_000, -200_000_000), (0, 120));
    assert_eq!(model.apply(u64::MAX, i64::MAX), (u64::MAX, 120));
}

#[test]
fn sell_walks_the_bids() {
    let mut wallet = Wallet::new(1_000_000_000, 0);
    let result = engine(0, 0)
        .execute(&two_sided_book(), 100_000_000, Side::Sell, &mut wallet, 0, 0)
        .unwrap();
    assert_eq!(result.execution_price, 500_000);
    assert_eq!(result.total_cost, 50_000_000);
    assert_eq!(result.slippage, 19_607);
    assert_eq!(wallet.positions()[0].side, Side::Sell);
}

#[test]
fn without_a_midpoint_slippage_is_zero() {
    let book = OrderBook {
        token_id: "t1".to_string(),
        bids: vec![],
        asks: vec![PriceLevel { price: 500_000, size: 100_000_000 }],
        timestamp: 0,
    };
    let mut wallet = Wallet::new(1_000_000_000, 0);
    let result = engine(200, 5_000)
        .execute(&book, 10_000_000, Side::Buy, &mut wallet, 1_000_000, 0)
        .unwrap();
    assert_eq!(result.execution_price, 502_500);
    assert_eq!(result.slippage, 0);
    assert_eq!(result.fee_paid, 100_500);
    assert_eq!(result.total_cost, 5_125_500);
}

#[test]
fn insufficient_liquidity_changes_nothing() {
    let mut wallet = Wallet::new(1_000_000_000, 0);
    wallet.record_spend(5, 0);
    let result = engine(200, 0).execute(&two_sided_book(), 300_000_001, Side::Buy, &mut wallet, 0, 0);
    assert!(result.is_none());
    assert_eq!(wallet.spent_today(), 5);
    assert!(wallet.positions().is_empty());
    assert_eq!(wallet.total_trades(), 0);
}

#[test]
fn empty_order_changes_nothing() {
    let mut wallet = Wallet::new(1_000_000_000, 0);
    let result = engine(200, 0).execute(&two_sided_book(), 0, Side::Buy, &mut wallet, 0, 0);
    assert!(result.is_none());
    assert_eq!(wallet.spent_today(), 0);
    assert!(wallet.positions().is_empty());
}

#[test]
fn insufficient_allowance_changes_nothing_not_even_the_window() {
    let mut wallet = Wallet::new(80_069_948, 0);
    let result =
        engine(200, 0).execute(&two_sided_book(), 150_000_000, Side::Buy, &mut wallet, 0, 200_000);
    assert!(result.is_none());
    assert_eq!(wallet.spent_today(), 0);
    assert_eq!(wallet.last_reset(), 0);
    assert!(wallet.positions().is_empty());
    assert_eq!(wallet.total_trades(), 0);

    let mut enough = Wallet::new(80_069_949, 0);
    let result =
        engine(200, 0).execute(&two_sided_book(), 150_000_000, Side::Buy, &mut enough, 0, 200_000);
    assert!(result.is_some());
    assert_eq!(enough.spent_today(), 80_069_949);
    assert_eq!(enough.last_reset(), 200_000);
}

#[test]
fn revoked_or_expired_permission_blocks_execution() {
    let mut revoked = Wallet::new(1_000_000_000, 0);
    revoked.revoke();
    assert!(engine(0, 0)
        .execute(&two_sided_book(), 1_000_000, Side::Buy, &mut revoked, 0, 0)
        .is_none());
    assert_eq!(revoked.spent_today(), 0);

    let mut expired = Wallet::new(1_000_000_000, 0);
    expired.set_expiry(Some(10));
    assert!(engine(0, 0)
        .execute(&two_sided_book(), 1_000_000, Side::Buy, &mut expired, 0, 10)
        .is_none());
    assert!(engine(0, 0)
        .execute(&two_sided_book(), 1_000_000, Side::Buy, &mut expired, 0, 9)
        .is_some());
}

#[test]
fn cost_beyond_the_range_is_refused() {
    let book = OrderBook {
        token_id: "t1".to_string(),
        bids: vec![],
        asks: vec![PriceLevel { price: u64::MAX, size: u64::MAX }],
        timestamp: 0,
    };
    let mut wallet = Wallet::new(u64::MAX, 0);
    let result = engine(200, 0).execute(&book, u64::MAX, Side::Buy, &mut wallet, 0, 0);
    assert!(result.is_none());
    assert_eq!(wallet.spent_today(), 0);
}

#[test]
fn reopening_a_token_replaces_the_holding() {
    let mut wallet = Wallet::new(1_000_000_000, 0);
    let e = engine(0, 0);
    e.execute(&two_sided_book(), 10_000_000, Side::Buy, &mut wallet, 0, 1).unwrap();
    e.execute(&two_sided_book(), 20_000_000, Side::Buy, &mut wallet, 0, 2).unwrap();
    assert_eq!(wallet.positions().len(), 1);
    assert_eq!(wallet.positions()[0].size, 20_000_000);
    assert_eq!(wallet.positions()[0].entry_time, 2);
    assert_eq!(wallet.total_trades(), 2);
    assert_eq!(wallet.spent_today(), 15_600_000);
}

#[test]
fn fees_by_role() {
    let fees = FeeModel { maker_fee_bps: 10, taker_fee_bps: 200 };
    assert_eq!(fees.taker_rate(), 20_000);
    assert_eq!(fees.maker_rate(), 1_000);
    assert_eq!(fees.calculate(78_499_950, true), 1_569_999);
    assert_eq!(fees.calculate(78_499_950, false), 78_499);
    assert_eq!(fees.calculate(0, true), 0);
    let none = FeeModel { maker_fee_bps: 0, taker_fee_bps: 0 };
    assert_eq!(none.calculate(u64::MAX, true), 0);
}

#[test]
fn fill_is_capped_by_liquidity() {
    let book = two_sided_book();
    assert_eq!(FillModel::filled_size(&book, 150_000_000, Side::Buy), 150_000_000);
    assert_eq!(FillModel::filled_size(&book, 300_000_000, Side::Buy), 300_000_000);
    assert_eq!(FillModel::filled_size(&book, 300_000_001, Side::Buy), 300_000_000);
    assert_eq!(FillModel::filled_size(&book, 150_000_000, Side::Sell), 100_000_000);
    assert_eq!(FillModel::filled_size(&book, 0, Side::Sell), 0);
}
