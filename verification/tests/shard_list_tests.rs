use oxide::database::ShardDatabase;
use oxide::response::{StatusCode, Version};
use oxide::shard_list::{
    render_shard_block, render_shard_list, shard_list_filter, ShardListEntry, ShardStatus,
};

const SHARD1: &str = "[Shard1]\nDescription=Primary shard\nShardId=1\nLoginServerIP=192.168.1.1\nLoginServerPort=8080\nLobbyServerIp=192.168.1.2\nLobbyServerPort=8081\nMCOTSServerIP=192.168.1.3\nStatusId=\nStatus_Reason=\nServerGroup_Name=GroupA\nPopulation=100\nMaxPersonasPerUser=5\nDiagnosticServerHost=192.168.1.4\nDiagnosticServerPort=9090\n";

const SHARD2: &str = "[Shard2]\nDescription=Secondary shard\nShardId=2\nLoginServerIP=192.168.1.5\nLoginServerPort=8082\nLobbyServerIp=192.168.1.6\nLobbyServerPort=8083\nMCOTSServerIP=192.168.1.7\nStatusId=2\nStatus_Reason=Offline\nServerGroup_Name=GroupB\nPopulation=50\nMaxPersonasPerUser=3\nDiagnosticServerHost=192.168.1.8\nDiagnosticServerPort=9091\n";

fn extreme() -> ShardListEntry {
    ShardListEntry {
        name: String::new(),
        description: "Zürich ü".to_string(),
        id: u32::MAX,
        login_server_ip: "::1".to_string(),
        login_server_port: u16::MAX,
        lobby_server_ip: String::new(),
        lobby_server_port: 0,
        mcots_server_ip: "h".to_string(),
        server_group_name: "G".to_string(),
        population: 0,
        max_personas_per_user: u8::MAX,
        diagnostic_server_host: "d".to_string(),
        diagnostic_server_port: 1,
        status: Some(ShardStatus { id: 0, reason: String::new() }),
    }
}

#[test]
fn healthy_shard_block() {
    let shards = ShardListEntry::get_all_shards(&ShardDatabase::with_initial_shards());
    let block = render_shard_block(&shards[0]);
    assert_eq!(block, SHARD1);
    assert!(block.contains("\nStatusId=\nStatus_Reason=\nServerGroup_Name="));
    assert!(!block.contains("null"));
    assert!(!block.contains("None"));
}

#[test]
fn offline_shard_block() {
    let shards = ShardListEntry::get_all_shards(&ShardDatabase::with_initial_shards());
    assert_eq!(render_shard_block(&shards[1]), SHARD2);
}

#[test]
fn block_with_extreme_values() {
    assert_eq!(
        render_shard_block(&extreme()),
        "[]\nDescription=Zürich ü\nShardId=4294967295\nLoginServerIP=::1\nLoginServerPort=65535\nLobbyServerIp=\nLobbyServerPort=0\nMCOTSServerIP=h\nStatusId=0\nStatus_Reason=\nServerGroup_Name=G\nPopulation=0\nMaxPersonasPerUser=255\nDiagnosticServerHost=d\nDiagnosticServerPort=1\n"
    );
}

#[test]
fn blocks_are_set_apart_by_a_blank_line() {
    let shards = ShardListEntry::get_all_shards(&ShardDatabase::with_initial_shards());
    assert_eq!(render_shard_list(&shards), format!("{}\n{}", SHARD1, SHARD2));
}

#[test]
fn list_of_no_shard_is_empty() {
    assert_eq!(render_shard_list(&Vec::new()), "");
}

#[test]
fn list_of_one_shard_is_its_block() {
    let shards = vec![extreme()];
    assert_eq!(render_shard_list(&shards), render_shard_block(&shards[0]));
}

#[test]
fn list_of_three_shards() {
    let mut shards = ShardListEntry::get_all_shards(&ShardDatabase::with_initial_shards());
    shards.push(extreme());
    let third = render_shard_block(&shards[2]);
    assert_eq!(render_shard_list(&shards), format!("{}\n{}\n{}", SHARD1, SHARD2, third));
}

#[test]
fn rendering_twice_gives_the_same_bytes() {
    let shards = ShardListEntry::get_all_shards(&ShardDatabase::with_initial_shards());
    let first = render_shard_list(&shards);
    let second = render_shard_list(&shards);
    assert_eq!(first.as_bytes(), second.as_bytes());
    let copy: Vec<ShardListEntry> = shards.iter().map(|s| s.clone()).collect();
    assert_eq!(render_shard_list(&copy).as_bytes(), first.as_bytes());
}

#[test]
fn shard_list_reply() {
    let shards = ShardListEntry::get_all_shards(&ShardDatabase::with_initial_shards());
    let response = shard_list_filter(&shards);
    assert_eq!(response.status(), StatusCode::ok());
    assert_eq!(response.version(), Version::Http11);
    assert_eq!(response.header("Content-Type"), Some("text/plain"));
    assert_eq!(response.header("Connection"), None);
    assert_eq!(response.headers().len(), 1);
    assert_eq!(response.body(), format!("{}\n{}", SHARD1, SHARD2));
}

#[test]
fn clone_keeps_every_field() {
    let source = extreme();
    let copy = source.clone();
    assert_eq!(render_shard_block(&copy), render_shard_block(&source));
    assert_eq!(copy.status.as_ref().unwrap().id, 0);
    let status = ShardStatus { id: 9, reason: "r".to_string() };
    let status_copy = status.clone();
    assert_eq!(status_copy.id, 9);
    assert_eq!(status_copy.reason, "r");
}
