use warehouse::command::{BotTransferToCommand, Command};
use warehouse::object::{Bot, Object, TestObject};

#[test]
fn test_lock() {
    let mut bot = Bot::new();
    let mut obj = TestObject::new();
    let mut cmd = BotTransferToCommand::new();
    cmd.initialize(&mut bot, &mut obj).unwrap();
    let bot_locked = *bot.get_lock();
    let obj_locked = *obj.get_lock();
    assert!(bot_locked);
    assert!(obj_locked);
}

#[test]
fn test_unlock() {
    let mut bot = Bot::new();
    let mut obj = TestObject::new();
    let mut cmd = BotTransferToCommand::new();
    cmd.initialize(&mut bot, &mut obj).unwrap();
    assert_eq!(cmd.consume(&mut bot, &mut obj).unwrap(), false);
    let bot_locked = *bot.get_lock();
    let obj_locked = *obj.get_lock();
    assert!(!bot_locked);
    assert!(!obj_locked);
}

#[test]
#[should_panic]
fn test_race() {
    let mut bot = Bot::new();
    let mut obj = TestObject::new();
    let mut cmd = BotTransferToCommand::new();
    cmd.initialize(&mut bot, &mut obj).unwrap();
    let mut cmd2 = BotTransferToCommand::new();
    cmd2.initialize(&mut bot, &mut obj).unwrap();
}

#[test]
fn test_storage() {
    let mut bot = Bot::new();
    let mut obj = TestObject::new();
    {
        let bot_storage = bot.get_storage();
        bot_storage.items.push(1);
        bot_storage.items.push(3);
    }
    {
        let obj_storage = obj.get_storage();
        obj_storage.items.push(2);
    }
    let mut cmd = BotTransferToCommand::new();
    cmd.initialize(&mut bot, &mut obj).unwrap();
    cmd.consume(&mut bot, &mut obj).unwrap();
    assert_eq!(bot.storage().items, vec![2]);
    assert_eq!(obj.storage().items, vec![1, 3]);
}
