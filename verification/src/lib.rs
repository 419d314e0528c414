//! A list-model adapter: row stores and read-only sources projected to a view
//! through a fixed protocol of counts, cells, role names and change brackets.

pub mod bracket;
pub mod flags;
pub mod laws;
pub mod liststate;
pub mod qabstractlistmodel;
pub mod qlistmodel;
pub mod qmeta;
pub mod qmodelindex;
pub mod qvariant;
pub mod roles;
pub mod trace;
pub mod rowstore;

pub use bracket::{ModelError, Notification, Phase, MAX_ROWS};
pub use flags::{DEFAULT_ITEM_FLAGS, ITEM_IS_EDITABLE, ITEM_IS_ENABLED, ITEM_IS_SELECTABLE};
pub use qabstractlistmodel::{QAbstractListModel, QModel};
pub use qlistmodel::QListModel;
pub use qmeta::{get_dos_qmeta, QMeta, QMetaDefinition, QObjectMacro};
pub use qmodelindex::QModelIndex;
pub use qvariant::{CellTag, QVariant};
pub use roles::{same_text, RoleSchema, MAX_ROLES, START_ROLE};
pub use rowstore::{fit_all, fit_cells};
