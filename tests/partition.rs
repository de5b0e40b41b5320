use binance_feed::partition::{
    create_websocket_url, generate_bookticker_url_in_n_pieces, partition_symbols, stream_url_of_lowered,
};

fn names(v: &[&str]) -> Vec<String> {
    v.iter().map(|s| s.to_string()).collect()
}

#[test]
fn three_symbols_in_two_groups() {
    let parts = partition_symbols(&names(&["BTCUSDT", "ETHUSDT", "BNBUSDT"]), 2);
    assert_eq!(parts.len(), 2);
    assert_eq!(parts[0], names(&["BTCUSDT", "ETHUSDT"]));
    assert_eq!(parts[1], names(&["BNBUSDT"]));
}

#[test]
fn larger_groups_come_first() {
    let input = names(&["A", "B", "C", "D", "E", "F", "G"]);
    let parts = partition_symbols(&input, 3);
    let sizes: Vec<usize> = parts.iter().map(|p| p.len()).collect();
    assert_eq!(sizes, vec![3, 2, 2]);
    let joined: Vec<String> = parts.concat();
    assert_eq!(joined, input);
}

#[test]
fn empty_list_gives_empty_groups() {
    let parts = partition_symbols(&Vec::new(), 4);
    assert_eq!(parts.len(), 4);
    assert!(parts.iter().all(|p| p.is_empty()));
}

#[test]
fn more_groups_than_symbols() {
    let parts = partition_symbols(&names(&["A", "B"]), 5);
    let sizes: Vec<usize> = parts.iter().map(|p| p.len()).collect();
    assert_eq!(sizes, vec![1, 1, 0, 0, 0]);
}

#[test]
fn single_group_holds_everything() {
    let input = names(&["X", "Y", "Z"]);
    let parts = partition_symbols(&input, 1);
    assert_eq!(parts, vec![input]);
}

#[test]
fn url_lower_cases_and_joins() {
    let url = create_websocket_url(&names(&["BTCUSDT", "ETHUSDT"]));
    assert_eq!(url, "wss://fstream.binance.com/stream?streams=btcusdt@bookTicker/ethusdt@bookTicker");
}

#[test]
fn url_of_no_symbols() {
    assert_eq!(create_websocket_url(&[]), "wss://fstream.binance.com/stream?streams=");
}

#[test]
fn one_url_per_group() {
    let urls = generate_bookticker_url_in_n_pieces(names(&["BTCUSDT", "ETHUSDT", "BNBUSDT"]), 2);
    assert_eq!(
        urls,
        vec![
            "wss://fstream.binance.com/stream?streams=btcusdt@bookTicker/ethusdt@bookTicker".to_string(),
            "wss://fstream.binance.com/stream?streams=bnbusdt@bookTicker".to_string(),
        ]
    );
}

#[test]
fn url_of_lowered_names_keeps_them() {
    assert_eq!(
        stream_url_of_lowered(&names(&["btcusdt", "ETHUSDT"])),
        "wss://fstream.binance.com/stream?streams=btcusdt@bookTicker/ETHUSDT@bookTicker"
    );
}
