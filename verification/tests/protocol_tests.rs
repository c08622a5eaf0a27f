use mygame_core::protocol::{ChannelMode, Level, Reliable, ServerWelcome, UnorderedReliable};

#[test]
fn the_void_level_is_the_default() {
    assert_eq!(Level::default(), Level::Void);
    assert_ne!(Level::default(), Level::Example);
}

#[test]
fn handshake_channels_are_reliable_but_unordered() {
    assert_eq!(UnorderedReliable.mode(), ChannelMode::UnorderedReliable);
    assert_eq!(Reliable.mode(), ChannelMode::UnorderedReliable);
    assert_ne!(UnorderedReliable.mode(), ChannelMode::Unreliable);
}

#[test]
fn the_welcome_names_the_level_it_carries() {
    let welcome = ServerWelcome { current_level: Level::Example };
    assert_eq!(welcome.current_level, Level::Example);
}
