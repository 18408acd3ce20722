pub mod create_chat_room;
pub mod get_chat_list;
pub mod get_chat_rooms;
