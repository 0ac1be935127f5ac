use warehouse::command::{BotTransferFromCommand, BotTransferToCommand, Command, TransferCommand};
use warehouse::object::{Bot, Object, TestObject};
use warehouse::ErrorKind;

#[test]
fn contention_reports_already_locked_and_spares_the_other_endpoint() {
    let mut bot = Bot::new();
    let mut obj = TestObject::new();
    let mut first = BotTransferToCommand::new();
    first.initialize(&mut bot, &mut obj).unwrap();

    // The bot is held by the first command: a second transfer out of it
    // must fail at its first endpoint and leave its fresh endpoint alone.
    let mut other = TestObject::new();
    let mut second = BotTransferToCommand::new();
    let r = second.initialize(&mut bot, &mut other);
    assert_eq!(r, Err(ErrorKind::AlreadyLocked));
    assert!(*bot.get_lock());
    assert!(!*other.get_lock());
}

#[test]
fn contention_on_the_second_endpoint_rolls_the_first_back() {
    let mut bot = Bot::new();
    let mut obj = TestObject::new();
    let mut first = BotTransferToCommand::new();
    first.initialize(&mut bot, &mut obj).unwrap();

    // `obj` is held; a transfer whose destination it is locks its source
    // first, then must give that lock back on the failure.
    let mut other = Bot::new();
    let mut second = BotTransferToCommand::new();
    let r = second.initialize(&mut other, &mut obj);
    assert_eq!(r, Err(ErrorKind::AlreadyLocked));
    assert!(!*other.get_lock());
    assert!(*obj.get_lock());
}

#[test]
fn lock_twice_reports_already_locked() {
    let mut bot = Bot::new();
    assert_eq!(bot.lock(), Ok(()));
    assert_eq!(bot.lock(), Err(ErrorKind::AlreadyLocked));
    assert!(*bot.get_lock());
}

#[test]
fn unlock_is_idempotent() {
    let mut obj = TestObject::new();
    assert!(!*obj.get_lock());
    assert_eq!(obj.unlock(), Ok(()));
    assert!(!*obj.get_lock());
    obj.lock().unwrap();
    assert_eq!(obj.unlock(), Ok(()));
    assert_eq!(obj.unlock(), Ok(()));
    assert!(!*obj.get_lock());
}

#[test]
fn round_trip_restores_both_contents() {
    let mut bot = Bot::new();
    let mut obj = TestObject::new();
    bot.get_storage().items.push(1);
    bot.get_storage().items.push(3);
    obj.get_storage().items.push(2);

    let mut there = BotTransferToCommand::new();
    there.initialize(&mut bot, &mut obj).unwrap();
    there.consume(&mut bot, &mut obj).unwrap();
    assert_eq!(bot.storage().items, vec![2]);
    assert_eq!(obj.storage().items, vec![1, 3]);

    let mut back = BotTransferFromCommand::new();
    back.initialize(&mut obj, &mut bot).unwrap();
    back.consume(&mut obj, &mut bot).unwrap();
    assert_eq!(bot.storage().items, vec![1, 3]);
    assert_eq!(obj.storage().items, vec![2]);
    assert!(!*bot.get_lock());
    assert!(!*obj.get_lock());
}

#[test]
fn transfer_of_empty_storages_swaps_them() {
    let mut bot = Bot::new();
    let mut obj = TestObject::new();
    obj.get_storage().items.push(5);

    let mut cmd: TransferCommand<Bot, TestObject> = TransferCommand::new();
    cmd.initialize(&mut bot, &mut obj).unwrap();
    let reschedule = cmd.consume(&mut bot, &mut obj).unwrap();
    assert_eq!(reschedule, false);
    assert_eq!(bot.storage().items, vec![5]);
    assert!(obj.storage().items.is_empty());
}

#[test]
fn identity_and_location_survive_a_transfer() {
    let mut bot = Bot::new();
    let mut obj = TestObject::new();
    bot.get_location().x = 7;
    bot.get_location().y = 40;
    bot.get_storage().items.push(9);

    let mut cmd = BotTransferToCommand::new();
    cmd.initialize(&mut bot, &mut obj).unwrap();
    cmd.consume(&mut bot, &mut obj).unwrap();
    assert_eq!(bot.id(), "bot");
    assert_eq!(obj.id(), "object");
    assert_eq!(bot.location().x, 7);
    assert_eq!(bot.location().y, 40);
    assert_eq!(bot.location().z, 0);
    assert_eq!(obj.location().x, 0);
}

#[test]
fn fresh_entities_start_empty_unlocked_at_origin() {
    let bot = Bot::new();
    let obj = TestObject::new();
    assert!(!*bot.get_lock());
    assert!(!*obj.get_lock());
    assert!(bot.storage().items.is_empty());
    assert!(obj.storage().items.is_empty());
    assert_eq!(bot.location().x, 0);
    assert_eq!(bot.location().y, 0);
    assert_eq!(bot.location().z, 0);
}
