pub mod deposit;
pub mod initialize;
pub mod swap;
pub mod transfer;
pub mod update;
pub mod withdraw;

pub use deposit::Deposit;
pub use initialize::Initialize;
pub use swap::Swap;
pub use update::CollectFees;
pub use update::Update;
pub use withdraw::Withdraw;
