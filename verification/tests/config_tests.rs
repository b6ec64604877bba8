use tcp_proxy::config::{get_config, init_config, ConfigCell, Server, Settings};

fn sample() -> Settings {
    Settings {
        debug: true,
        forward: vec![
            Server {
                name: "web".to_string(),
                listen_address: "127.0.0.1:8080".to_string(),
                forward_address: "example.org:80".to_string(),
            },
            Server {
                name: "ssh".to_string(),
                listen_address: "0.0.0.0:2222".to_string(),
                forward_address: "10.0.0.5:22".to_string(),
            },
        ],
    }
}

#[test]
fn new_cell_is_empty() {
    assert!(!ConfigCell::new().is_initialized());
}

#[test]
fn init_fills_the_cell() {
    let mut cell = ConfigCell::new();
    init_config(&mut cell, sample());
    assert!(cell.is_initialized());
}

#[test]
fn get_returns_what_init_stored() {
    let mut cell = ConfigCell::new();
    init_config(&mut cell, sample());
    assert_eq!(get_config(&cell), &sample());
    assert!(get_config(&cell).debug);
    assert_eq!(get_config(&cell).forward.len(), 2);
    assert_eq!(get_config(&cell).forward[1].forward_address, "10.0.0.5:22");
}

#[test]
fn get_can_be_called_again_and_again() {
    let mut cell = ConfigCell::new();
    init_config(&mut cell, Settings { debug: false, forward: Vec::new() });
    let first = get_config(&cell);
    let second = get_config(&cell);
    assert_eq!(first, second);
    assert!(!first.debug);
    assert!(first.forward.is_empty());
}
