// Safe marshalling around the native gettext library.
//
// `marshal` turns text into nul-terminated native buffers, naming the argument
// that holds a nul byte, and turns native buffers back into UTF-8 text.
// `lookup` and `domain` wrap each native entry point, handed in as a closure,
// between the two. `context` emulates context-qualified lookup on top of the
// plain and plural lookups. `category` holds the native locale categories.
pub mod category;
pub mod context;
pub mod domain;
pub mod lookup;
pub mod marshal;
