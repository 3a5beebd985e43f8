pub mod consts;
