//! SFTP file management: path bar, file list and transfer queue.

pub mod path_bar;
pub mod transfer_queue;
pub mod file_list;
pub mod sftp_view;

pub use file_list::{FileListEvent, FileListView, SortColumn, SortOrder};
pub use path_bar::{PathBar, PathBarEvent};
pub use sftp_view::{SftpView, SftpViewEvent, SftpViewMode};
pub use transfer_queue::{TransferQueueEvent, TransferQueueView};
