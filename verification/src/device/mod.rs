pub mod tun;
