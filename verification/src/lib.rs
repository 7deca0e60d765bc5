//! Dynamic scoping keyed by type.
//!
//! A [`Registry`] records, for each type identity, the address of the
//! instance that is current. A [`CurrentGuard`] makes an instance current
//! and, on release, puts back whatever was current before it, so that nested
//! guards shadow and restore. A [`Current`] resolves a type identity to the
//! instance that is current for it, among instances that the caller lends.
//!
//! The registry is an ordinary value that is handed to whoever needs it; a
//! program keeps one for each thread of execution. A type identity is a
//! number that the program assigns to each type it scopes.
//!
//! ```
//! use current::{Current, CurrentGuard, Registry};
//!
//! const NAME: u64 = 0;
//!
//! let mut registry = Registry::new();
//! let mut names = vec![String::from("outer"), String::from("inner")];
//! let mut name = Current::<String>::new(NAME);
//!
//! let outer = CurrentGuard::new(&mut registry, NAME, 0);
//! assert_eq!(name.current_ref(&registry, &names), Some(&names[0]));
//! let inner = CurrentGuard::new(&mut registry, NAME, 1);
//! if let Some(current) = name.current(&registry, &mut names) {
//!     current.push('!');
//! }
//! inner.release(&mut registry);
//! assert_eq!(name.current_ref(&registry, &names), Some(&names[0]));
//! outer.release(&mut registry);
//! assert_eq!(name.current_ref(&registry, &names), None);
//! assert_eq!(names[1], "inner!");
//! ```

pub mod accessor;
pub mod guard;
pub mod nesting;
pub mod registry;

pub use accessor::{no_current_message, Current};
pub use guard::CurrentGuard;
pub use registry::Registry;
