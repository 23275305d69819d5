use network_analyzer::aggregator::{forward_record, Aggregator};
use network_analyzer::parsed_packet::ParsedPacket;
use network_analyzer::report_entry::Connection;

#[test]
fn test_aggregator() {
    let timestamp1: usize = 1667775485;
    let source_ip1: String = "127.0.0.1".to_string();
    let destination_ip1: String = "128.0.0.2".to_string();
    let source_port1: usize = 62911;
    let destination_port1: usize = 80;
    let protocol1: String = "TCP".to_string();
    let size1: usize = 64;
    let list: Vec<ParsedPacket> = vec![
        ParsedPacket::new(
            timestamp1.to_string(),
            source_ip1.clone(),
            destination_ip1.clone(),
            Some(source_port1),
            Some(destination_port1),
            protocol1.clone(),
            size1,
        ),
        ParsedPacket::new(
            (timestamp1 + 1).to_string(),
            source_ip1.clone(),
            destination_ip1.clone(),
            Some(source_port1),
            Some(destination_port1),
            protocol1.clone(),
            size1,
        ),
        ParsedPacket::new(
            (timestamp1 + 2).to_string(),
            source_ip1.clone(),
            destination_ip1.clone(),
            Some(source_port1),
            Some(destination_port1),
            protocol1.clone(),
            size1,
        ),
        ParsedPacket::new(
            (timestamp1 + 3).to_string(),
            source_ip1.clone(),
            destination_ip1.clone(),
            Some(source_port1),
            Some(destination_port1),
            protocol1.clone(),
            size1,
        ),
    ];
    let (aggregator, worker) = Aggregator::new();
    let table = aggregator.get_aggregated_data();
    for packet in list {
        aggregator.send(packet);
    }
    drop(aggregator);
    while worker.step() {}
    let key = Connection::new(
        source_ip1,
        destination_ip1,
        Some(source_port1),
        Some(destination_port1),
        protocol1,
    );
    let aggregated_data = table.snapshot();
    assert_eq!(aggregated_data.len(), 1);
    assert_eq!(aggregated_data.contains_key(&key), true);
    let value = aggregated_data.get(&key).unwrap();
    assert_eq!(value.size, 256 as usize);
    assert_eq!(value.first_timestamp, 1667775485.to_string());
    assert_eq!(value.last_timestamp, 1667775488.to_string());
    println!("aggregated record received: {:?}, {:?}", key, value);
}

#[test]
fn test_aggregator_multiple_destinations() {
    let timestamp1: usize = 1667775485;
    let source_ip1: String = "127.0.0.1".to_string();
    let destination_ip1: String = "128.0.0.2".to_string();
    let source_port1: usize = 62911;
    let destination_port1: usize = 80;
    let protocol1: String = "TCP".to_string();
    let size1: usize = 64;
    let timestamp2: usize = 1667775470;
    let source_ip2: String = "127.0.0.3".to_string();
    let destination_ip2: String = "128.0.0.4".to_string();
    let source_port2: usize = 62912;
    let destination_port2: usize = 81;
    let protocol2: String = "TCP".to_string();
    let size2: usize = 64;

    let list1: Vec<ParsedPacket> = vec![
        ParsedPacket::new(
            timestamp1.to_string(),
            source_ip1.clone(),
            destination_ip1.clone(),
            Some(source_port1),
            Some(destination_port1),
            protocol1.clone(),
            size1,
        ),
        ParsedPacket::new(
            (timestamp1 + 1).to_string(),
            source_ip1.clone(),
            destination_ip1.clone(),
            Some(source_port1),
            Some(destination_port1),
            protocol1.clone(),
            size1,
        ),
        ParsedPacket::new(
            (timestamp1 + 2).to_string(),
            source_ip1.clone(),
            destination_ip1.clone(),
            Some(source_port1),
            Some(destination_port1),
            protocol1.clone(),
            size1,
        ),
        ParsedPacket::new(
            (timestamp1 + 3).to_string(),
            source_ip1.clone(),
            destination_ip1.clone(),
            Some(source_port1),
            Some(destination_port1),
            protocol1.clone(),
            size1,
        ),
    ];

    let list2: Vec<ParsedPacket> = vec![
        ParsedPacket::new(
            timestamp2.to_string(),
            source_ip2.clone(),
            destination_ip2.clone(),
            Some(source_port2),
            Some(destination_port2),
            protocol2.clone(),
            size2,
        ),
        ParsedPacket::new(
            (timestamp2 + 1).to_string(),
            source_ip2.clone(),
            destination_ip2.clone(),
            Some(source_port2),
            Some(destination_port2),
            protocol2.clone(),
            size2,
        ),
    ];

    let (aggregator, worker) = Aggregator::new();
    let table = aggregator.get_aggregated_data();
    // interleave the two groups
    let mut list1 = list1;
    let mut list2 = list2;
    let mut interleaved: Vec<ParsedPacket> = Vec::new();
    while !list1.is_empty() || !list2.is_empty() {
        if !list1.is_empty() {
            interleaved.push(list1.remove(0));
        }
        if !list2.is_empty() {
            interleaved.push(list2.remove(0));
        }
    }
    for packet in interleaved {
        aggregator.send(packet);
    }
    drop(aggregator);
    while worker.step() {}
    let key1 = Connection::new(
        source_ip1,
        destination_ip1,
        Some(source_port1),
        Some(destination_port1),
        protocol1,
    );
    let key2 = Connection::new(
        source_ip2,
        destination_ip2,
        Some(source_port2),
        Some(destination_port2),
        protocol2,
    );
    let aggregated_data = table.snapshot();
    assert_eq!(aggregated_data.len(), 2);
    assert_eq!(aggregated_data.contains_key(&key1), true);
    assert_eq!(aggregated_data.contains_key(&key2), true);
    let value1 = aggregated_data.get(&key1).unwrap();
    let value2 = aggregated_data.get(&key2).unwrap();
    assert_eq!(value1.size, 256 as usize);
    assert_eq!(value1.first_timestamp, 1667775485.to_string());
    assert_eq!(value1.last_timestamp, 1667775488.to_string());

    assert_eq!(value2.size, 128 as usize);
    assert_eq!(value2.first_timestamp, 1667775470.to_string());
    assert_eq!(value2.last_timestamp, 1667775471.to_string());
    println!("aggregated record1 received: {:?}, {:?}", key1, value1);
    println!("aggregated record2 received: {:?}, {:?}", key2, value2);
}

#[test]
fn forward_record_reports_a_gone_worker() {
    let (aggregator, worker) = Aggregator::new();
    let tx = aggregator.get_sender();
    let packet = ParsedPacket::new(
        "1667775485".to_string(),
        "10.0.0.1".to_string(),
        "10.0.0.2".to_string(),
        Some(1000),
        Some(2000),
        "UDP".to_string(),
        40,
    );
    assert!(forward_record(&tx, packet));
    // run the worker dry, then drop it: later submissions are refused
    drop(aggregator);
    drop(tx);
    while worker.step() {}
    drop(worker);
    let (aggregator2, worker2) = Aggregator::new();
    let tx2 = aggregator2.get_sender();
    drop(worker2);
    let packet2 = ParsedPacket::new(
        "1667775486".to_string(),
        "10.0.0.1".to_string(),
        "10.0.0.2".to_string(),
        Some(1000),
        Some(2000),
        "UDP".to_string(),
        40,
    );
    assert!(!forward_record(&tx2, packet2));
}
