//! Shard records and the plaintext shard list the legacy client reads.

use crate::response::{Response, ResponseView, StatusCode, Version};
use crate::text::{decimal, decimal_string};
use vstd::prelude::*;

verus! {

/// Why a shard is degraded or offline.
#[derive(Debug)]
pub struct ShardStatus {
    pub id: u8,
    pub reason: String,
}

/// The mathematical content of a [`ShardStatus`].
pub struct StatusRecord {
    pub id: nat,
    pub reason: Seq<char>,
}

impl View for ShardStatus {
    type V = StatusRecord;

    open spec fn view(&self) -> StatusRecord {
        StatusRecord { id: self.id as nat, reason: self.reason@ }
    }
}

impl DeepView for ShardStatus {
    type V = StatusRecord;

    open spec fn deep_view(&self) -> StatusRecord {
        self@
    }
}

impl Clone for ShardStatus {
    fn clone(&self) -> (copy: ShardStatus)
        ensures
            copy@ == self@,
    {
        ShardStatus { id: self.id, reason: self.reason.clone() }
    }
}

/// One shard of the server cluster, as the client is told about it. A shard
/// without a status is healthy.
#[derive(Debug)]
pub struct ShardListEntry {
    pub name: String,
    pub description: String,
    pub id: u32,
    pub login_server_ip: String,
    pub login_server_port: u16,
    pub lobby_server_ip: String,
    pub lobby_server_port: u16,
    pub mcots_server_ip: String,
    pub server_group_name: String,
    pub population: u32,
    pub max_personas_per_user: u8,
    pub diagnostic_server_host: String,
    pub diagnostic_server_port: u16,
    pub status: Option<ShardStatus>,
}

/// The mathematical content of a [`ShardListEntry`].
pub struct ShardRecord {
    pub name: Seq<char>,
    pub description: Seq<char>,
    pub id: nat,
    pub login_server_ip: Seq<char>,
    pub login_server_port: nat,
    pub lobby_server_ip: Seq<char>,
    pub lobby_server_port: nat,
    pub mcots_server_ip: Seq<char>,
    pub server_group_name: Seq<char>,
    pub population: nat,
    pub max_personas_per_user: nat,
    pub diagnostic_server_host: Seq<char>,
    pub diagnostic_server_port: nat,
    pub status: Option<StatusRecord>,
}

impl View for ShardListEntry {
    type V = ShardRecord;

    open spec fn view(&self) -> ShardRecord {
        ShardRecord {
            name: self.name@,
            description: self.description@,
            id: self.id as nat,
            login_server_ip: self.login_server_ip@,
            login_server_port: self.login_server_port as nat,
            lobby_server_ip: self.lobby_server_ip@,
            lobby_server_port: self.lobby_server_port as nat,
            mcots_server_ip: self.mcots_server_ip@,
            server_group_name: self.server_group_name@,
            population: self.population as nat,
            max_personas_per_user: self.max_personas_per_user as nat,
            diagnostic_server_host: self.diagnostic_server_host@,
            diagnostic_server_port: self.diagnostic_server_port as nat,
            status: self.status.deep_view(),
        }
    }
}

impl DeepView for ShardListEntry {
    type V = ShardRecord;

    open spec fn deep_view(&self) -> ShardRecord {
        self@
    }
}

impl Clone for ShardListEntry {
    fn clone(&self) -> (copy: ShardListEntry)
        ensures
            copy@ == self@,
    {
        let status: Option<ShardStatus> = match &self.status {
            Some(s) => Some(s.clone()),
            None => None,
        };
        ShardListEntry {
            name: self.name.clone(),
            description: self.description.clone(),
            id: self.id,
            login_server_ip: self.login_server_ip.clone(),
            login_server_port: self.login_server_port,
            lobby_server_ip: self.lobby_server_ip.clone(),
            lobby_server_port: self.lobby_server_port,
            mcots_server_ip: self.mcots_server_ip.clone(),
            server_group_name: self.server_group_name.clone(),
            population: self.population,
            max_personas_per_user: self.max_personas_per_user,
            diagnostic_server_host: self.diagnostic_server_host.clone(),
            diagnostic_server_port: self.diagnostic_server_port,
            status,
        }
    }
}

/// What stands after `StatusId=`: the status id in decimal, or nothing for a
/// healthy shard.
pub open spec fn status_id_text(status: Option<StatusRecord>) -> Seq<char> {
    match status {
        Some(s) => decimal(s.id),
        None => Seq::empty(),
    }
}

/// What stands after `Status_Reason=`: the reason, or nothing for a healthy
/// shard.
pub open spec fn status_reason_text(status: Option<StatusRecord>) -> Seq<char> {
    match status {
        Some(s) => s.reason,
        None => Seq::empty(),
    }
}

/// The block of fifteen lines that describes one shard, each line ended by a
/// line feed.
pub open spec fn shard_block(r: ShardRecord) -> Seq<char> {
    "["@ + r.name + "]\nDescription="@ + r.description + "\nShardId="@ + decimal(r.id)
        + "\nLoginServerIP="@ + r.login_server_ip + "\nLoginServerPort="@ + decimal(
        r.login_server_port,
    ) + "\nLobbyServerIp="@ + r.lobby_server_ip + "\nLobbyServerPort="@ + decimal(
        r.lobby_server_port,
    ) + "\nMCOTSServerIP="@ + r.mcots_server_ip + "\nStatusId="@ + status_id_text(r.status)
        + "\nStatus_Reason="@ + status_reason_text(r.status) + "\nServerGroup_Name="@
        + r.server_group_name + "\nPopulation="@ + decimal(r.population)
        + "\nMaxPersonasPerUser="@ + decimal(r.max_personas_per_user)
        + "\nDiagnosticServerHost="@ + r.diagnostic_server_host + "\nDiagnosticServerPort="@
        + decimal(r.diagnostic_server_port) + "\n"@
}

/// The body of the shard list: the blocks of the shards in order, with one
/// line feed between two blocks, which shows as a blank line.
pub open spec fn shard_list_body(records: Seq<ShardRecord>) -> Seq<char>
    decreases records.len(),
{
    if records.len() == 0 {
        Seq::empty()
    } else if records.len() == 1 {
        shard_block(records[0])
    } else {
        shard_list_body(records.drop_last()) + "\n"@ + shard_block(records.last())
    }
}

/// A healthy shard renders with nothing behind `StatusId=` and nothing
/// behind `Status_Reason=`: the two lines end right after the equals sign.
pub proof fn lemma_healthy_shard_renders_empty_status(r: ShardRecord)
    requires
        r.status is None,
    ensures
        status_id_text(r.status) == Seq::<char>::empty(),
        status_reason_text(r.status) == Seq::<char>::empty(),
        shard_block(r) == "["@ + r.name + "]\nDescription="@ + r.description + "\nShardId="@
            + decimal(r.id) + "\nLoginServerIP="@ + r.login_server_ip + "\nLoginServerPort="@
            + decimal(r.login_server_port) + "\nLobbyServerIp="@ + r.lobby_server_ip
            + "\nLobbyServerPort="@ + decimal(r.lobby_server_port) + "\nMCOTSServerIP="@
            + r.mcots_server_ip + "\nStatusId="@ + "\nStatus_Reason="@ + "\nServerGroup_Name="@
            + r.server_group_name + "\nPopulation="@ + decimal(r.population)
            + "\nMaxPersonasPerUser="@ + decimal(r.max_personas_per_user)
            + "\nDiagnosticServerHost="@ + r.diagnostic_server_host
            + "\nDiagnosticServerPort="@ + decimal(r.diagnostic_server_port) + "\n"@,
{
    let head = "["@ + r.name + "]\nDescription="@ + r.description + "\nShardId="@ + decimal(r.id)
        + "\nLoginServerIP="@ + r.login_server_ip + "\nLoginServerPort="@ + decimal(
        r.login_server_port,
    ) + "\nLobbyServerIp="@ + r.lobby_server_ip + "\nLobbyServerPort="@ + decimal(
        r.lobby_server_port,
    ) + "\nMCOTSServerIP="@ + r.mcots_server_ip + "\nStatusId="@;
    assert(head + Seq::<char>::empty() =~= head);
    let mid = head + "\nStatus_Reason="@;
    assert(mid + Seq::<char>::empty() =~= mid);
}

/// Rendering is a function of the snapshot: two snapshots that hold the
/// same records render to the same body, character for character and so
/// byte for byte.
pub proof fn lemma_same_snapshot_same_body(first: Seq<ShardRecord>, second: Seq<ShardRecord>)
    requires
        first =~= second,
    ensures
        shard_list_body(first) == shard_list_body(second),
        vstd::utf8::encode_utf8(shard_list_body(first)) == vstd::utf8::encode_utf8(
            shard_list_body(second),
        ),
{
}

/// Renders the block of one shard.
pub fn render_shard_block(entry: &ShardListEntry) -> (out: String)
    ensures
        out@ == shard_block(entry@),
{
    let (status_id, status_reason): (String, String) = match &entry.status {
        Some(status) => (decimal_string(status.id as u64), status.reason.clone()),
        None => (String::new(), String::new()),
    };
    let mut out: String = String::from_str("[");
    out.append(entry.name.as_str());
    out.append("]\nDescription=");
    out.append(entry.description.as_str());
    out.append("\nShardId=");
    out.append(decimal_string(entry.id as u64).as_str());
    out.append("\nLoginServerIP=");
    out.append(entry.login_server_ip.as_str());
    out.append("\nLoginServerPort=");
    out.append(decimal_string(entry.login_server_port as u64).as_str());
    out.append("\nLobbyServerIp=");
    out.append(entry.lobby_server_ip.as_str());
    out.append("\nLobbyServerPort=");
    out.append(decimal_string(entry.lobby_server_port as u64).as_str());
    out.append("\nMCOTSServerIP=");
    out.append(entry.mcots_server_ip.as_str());
    out.append("\nStatusId=");
    out.append(status_id.as_str());
    out.append("\nStatus_Reason=");
    out.append(status_reason.as_str());
    out.append("\nServerGroup_Name=");
    out.append(entry.server_group_name.as_str());
    out.append("\nPopulation=");
    out.append(decimal_string(entry.population as u64).as_str());
    out.append("\nMaxPersonasPerUser=");
    out.append(decimal_string(entry.max_personas_per_user as u64).as_str());
    out.append("\nDiagnosticServerHost=");
    out.append(entry.diagnostic_server_host.as_str());
    out.append("\nDiagnosticServerPort=");
    out.append(decimal_string(entry.diagnostic_server_port as u64).as_str());
    out.append("\n");
    out
}

/// Renders the body of the shard list for a snapshot of the registry.
pub fn render_shard_list(shards: &Vec<ShardListEntry>) -> (out: String)
    ensures
        out@ == shard_list_body(shards.deep_view()),
{
    let mut out: String = String::new();
    let mut i: usize = 0;
    while i < shards.len()
        invariant
            i <= shards.len(),
            out@ == shard_list_body(shards.deep_view().take(i as int)),
        decreases shards.len() - i,
    {
        let ghost before = shards.deep_view().take(i as int);
        let ghost after = shards.deep_view().take(i + 1);
        assert(after.drop_last() =~= before);
        assert(after.last() == shards[i as int]@);
        if i > 0 {
            out.append("\n");
        }
        let block: String = render_shard_block(&shards[i]);
        out.append(block.as_str());
        assert(out@ =~= shard_list_body(after));
        i = i + 1;
    }
    assert(shards.deep_view().take(i as int) =~= shards.deep_view());
    out
}

/// The headers of a shard list reply.
pub open spec fn shard_list_headers() -> Seq<(Seq<char>, Seq<char>)> {
    seq![("Content-Type"@, "text/plain"@)]
}

/// The reply to a shard list request for a snapshot of the registry:
/// status 200, plain text, one block per shard.
pub fn shard_list_filter(shards: &Vec<ShardListEntry>) -> (resp: Response)
    ensures
        resp@ == (ResponseView {
            status: 200,
            version: Version::Http11,
            headers: shard_list_headers(),
            body: shard_list_body(shards.deep_view()),
        }),
{
    let plain_text: String = render_shard_list(shards);
    let mut headers: Vec<(String, String)> = Vec::new();
    headers.push((String::from_str("Content-Type"), String::from_str("text/plain")));
    assert(headers.deep_view() =~= shard_list_headers());
    Response::new(StatusCode::ok(), Version::Http11, headers, plain_text)
}

} // verus!
