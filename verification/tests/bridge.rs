use ibc::apps::transfer::types::error::TokenTransferError;
use ibc::apps::transfer::types::PrefixedCoin;
use shielded_recv::bridge::{Error, MintCall, UnescrowCall};
use shielded_recv::middleware::ShieldedRecvModule;

type Port = ibc::core::host::types::identifiers::PortId;
type Channel = ibc::core::host::types::identifiers::ChannelId;

fn bridge() -> ShieldedRecvModule {
    ShieldedRecvModule::new("the-pool".to_string())
}

fn coin() -> PrefixedCoin {
    PrefixedCoin { denom: "transfer/channel-3/uatom".parse().unwrap(), amount: 50u64.into() }
}

/// Stands for account decoding: an account is a number written in decimal.
fn decode(id: &str) -> Result<u32, String> {
    id.parse::<u32>().map_err(|e| e.to_string())
}

#[test]
fn mint_with_invalid_account_fails_with_decode_error() {
    let coin = coin();
    let reason = decode("not an account").unwrap_err();
    match bridge().mint_coins_execute(decode("not an account"), &coin) {
        Err(Error::Other(text)) => assert_eq!(text, reason),
        other => panic!("{:?}", other),
    }
}

#[test]
fn mint_with_valid_account_asks_to_mint_the_same_coin() {
    let coin = coin();
    match bridge().mint_coins_execute(decode("17"), &coin) {
        Ok(MintCall { receiver, coin: asked }) => {
            assert_eq!(receiver, 17);
            assert!(std::ptr::eq(asked, &coin));
            assert_eq!(*asked, self::coin());
        }
        other => panic!("{:?}", other),
    }
}

#[test]
fn unescrow_with_invalid_account_fails_with_decode_error() {
    let coin = coin();
    let port = Port::transfer();
    let channel = Channel::new(3);
    match bridge().unescrow_coins_execute(decode(""), &port, &channel, &coin) {
        Err(Error::Other(text)) => assert_eq!(text, decode("").unwrap_err()),
        other => panic!("{:?}", other),
    }
}

#[test]
fn unescrow_with_valid_account_asks_with_same_port_channel_and_coin() {
    let coin = coin();
    let port = Port::transfer();
    let channel = Channel::new(3);
    match bridge().unescrow_coins_execute(decode("4"), &port, &channel, &coin) {
        Ok(UnescrowCall { receiver, port: p, channel: c, coin: k }) => {
            assert_eq!(receiver, 4);
            assert!(std::ptr::eq(p, &port));
            assert!(std::ptr::eq(c, &channel));
            assert!(std::ptr::eq(k, &coin));
            assert_eq!(p.as_str(), "transfer");
            assert_eq!(c.as_str(), "channel-3");
        }
        other => panic!("{:?}", other),
    }
}

#[test]
fn success_of_the_context_is_success() {
    assert!(matches!(bridge().bridge_result(Ok(())), Ok(())));
}

#[test]
fn error_of_the_context_comes_back_as_token_transfer_error() {
    match bridge().bridge_result(Err(TokenTransferError::FailedToDeserializeAck)) {
        Err(Error::TokenTransfer(TokenTransferError::FailedToDeserializeAck)) => {}
        other => panic!("{:?}", other),
    }
    let port = Port::transfer();
    let channel = Channel::new(9);
    let e = TokenTransferError::MissingDestinationChannel {
        port_id: port.clone(),
        channel_id: channel.clone(),
    };
    match bridge().bridge_result(Err(e)) {
        Err(Error::TokenTransfer(TokenTransferError::MissingDestinationChannel {
            port_id,
            channel_id,
        })) => {
            assert_eq!(port_id, port);
            assert_eq!(channel_id, channel);
        }
        other => panic!("{:?}", other),
    }
}
