use power_logger::signals::Msg;
use power_logger::signals::SignalChannel;

#[test]
fn empty_channel_gives_nothing() {
    let mut c = SignalChannel::new();
    assert_eq!(c.try_recv(), None);
    assert_eq!(c.drain(), Vec::<Msg>::new());
}

#[test]
fn signals_leave_in_the_order_in_which_they_came() {
    let mut c = SignalChannel::new();
    c.send(Msg::KeepAlive);
    c.send(Msg::Restart);
    c.send(Msg::KeepAlive);
    assert_eq!(c.try_recv(), Some(Msg::KeepAlive));
    assert_eq!(c.try_recv(), Some(Msg::Restart));
    assert_eq!(c.try_recv(), Some(Msg::KeepAlive));
    assert_eq!(c.try_recv(), None);
}

#[test]
fn drain_takes_everything_once() {
    let mut c = SignalChannel::new();
    c.send(Msg::Restart);
    c.send(Msg::KeepAlive);
    assert_eq!(c.drain(), vec![Msg::Restart, Msg::KeepAlive]);
    assert_eq!(c.drain(), Vec::<Msg>::new());
    c.send(Msg::KeepAlive);
    assert_eq!(c.drain(), vec![Msg::KeepAlive]);
}
