use vstd::prelude::*;

verus! {

/// Connection status of the client.
#[derive(Debug, Clone, Copy, PartialEq, Eq, Structural)]
pub enum ConnectionStatus {
    Connected,
    Firewalled,
    Disconnected,
}

/// Global transfer statistics.
#[derive(Debug)]
pub struct TransferInfo {
    dl_info_speed: u64,
    dl_info_data: u64,
    up_info_speed: u64,
    up_info_data: u64,
    dl_rate_limit: u64,
    up_rate_limit: u64,
    dht_nodes: u64,
    connection_status: ConnectionStatus,
}

/// The abstract contents of a [`TransferInfo`].
pub ghost struct TransferInfoView {
    pub dl_info_speed: u64,
    pub dl_info_data: u64,
    pub up_info_speed: u64,
    pub up_info_data: u64,
    pub dl_rate_limit: u64,
    pub up_rate_limit: u64,
    pub dht_nodes: u64,
    pub connection_status: ConnectionStatus,
}

impl View for TransferInfo {
    type V = TransferInfoView;

    closed spec fn view(&self) -> TransferInfoView {
        TransferInfoView {
            dl_info_speed: self.dl_info_speed,
            dl_info_data: self.dl_info_data,
            up_info_speed: self.up_info_speed,
            up_info_data: self.up_info_data,
            dl_rate_limit: self.dl_rate_limit,
            up_rate_limit: self.up_rate_limit,
            dht_nodes: self.dht_nodes,
            connection_status: self.connection_status,
        }
    }
}

impl TransferInfo {
    /// Transfer statistics with the given fields.
    pub fn new(
        dl_info_speed: u64,
        dl_info_data: u64,
        up_info_speed: u64,
        up_info_data: u64,
        dl_rate_limit: u64,
        up_rate_limit: u64,
        dht_nodes: u64,
        connection_status: ConnectionStatus,
    ) -> (r: TransferInfo)
        ensures
            r@ == (TransferInfoView {
                dl_info_speed,
                dl_info_data,
                up_info_speed,
                up_info_data,
                dl_rate_limit,
                up_rate_limit,
                dht_nodes,
                connection_status,
            }),
    {
        TransferInfo {
            dl_info_speed,
            dl_info_data,
            up_info_speed,
            up_info_data,
            dl_rate_limit,
            up_rate_limit,
            dht_nodes,
            connection_status,
        }
    }

    /// Global download rate (bytes/s).
    pub fn dl_info_speed(&self) -> (r: &u64)
        ensures
            *r == self@.dl_info_speed,
    {
        &self.dl_info_speed
    }

    /// Data downloaded this session (bytes).
    pub fn dl_info_data(&self) -> (r: &u64)
        ensures
            *r == self@.dl_info_data,
    {
        &self.dl_info_data
    }

    /// Global upload rate (bytes/s).
    pub fn up_info_speed(&self) -> (r: &u64)
        ensures
            *r == self@.up_info_speed,
    {
        &self.up_info_speed
    }

    /// Data uploaded this session (bytes).
    pub fn up_info_data(&self) -> (r: &u64)
        ensures
            *r == self@.up_info_data,
    {
        &self.up_info_data
    }

    /// Download rate limit (bytes/s).
    pub fn dl_rate_limit(&self) -> (r: &u64)
        ensures
            *r == self@.dl_rate_limit,
    {
        &self.dl_rate_limit
    }

    /// Upload rate limit (bytes/s).
    pub fn up_rate_limit(&self) -> (r: &u64)
        ensures
            *r == self@.up_rate_limit,
    {
        &self.up_rate_limit
    }

    /// DHT nodes connected to.
    pub fn dht_nodes(&self) -> (r: &u64)
        ensures
            *r == self@.dht_nodes,
    {
        &self.dht_nodes
    }

    /// Connection status.
    pub fn connection_status(&self) -> (r: &ConnectionStatus)
        ensures
            *r == self@.connection_status,
    {
        &self.connection_status
    }
}

} // verus!
