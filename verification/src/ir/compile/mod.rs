pub mod linux_amd64;
