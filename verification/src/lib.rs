//! Verified index logic of a two-dimensional transposed-convolution compute
//! kernel and of the tensor metadata it reads.
pub mod ir;
pub mod kernel_run;
pub mod semantics;
pub mod tensor_info;
pub mod conv_transpose2d;
pub mod conv_transpose2d_scope;
pub mod window;
